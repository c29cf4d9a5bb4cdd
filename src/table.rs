//! Rendering of jobs as a bordered text table.
use vstd::prelude::*;
use vstd::string::StrSliceExecFns;
use crate::job::{Job, JobView, jobs_view};
use crate::text::{decimal, decimal_text};

verus! {

/// The column headers, in order.
pub open spec fn headers() -> Seq<Seq<char>> {
    seq!["ID"@, "Name"@, "Status"@, "Inserted At"@, "Updated At"@]
}

/// The cells a job shows, in column order; the id in decimal.
pub open spec fn cells(j: JobView) -> Seq<Seq<char>> {
    seq![decimal(j.id), j.name, j.status, j.inserted_at, j.updated_at]
}

/// The width of column `c`: the longest of its header and of its cells.
pub open spec fn width(jobs: Seq<JobView>, c: int) -> int
    decreases jobs.len(),
{
    if jobs.len() == 0 {
        headers()[c].len() as int
    } else {
        let w = width(jobs.drop_last(), c);
        let l = cells(jobs.last())[c].len() as int;
        if l > w {
            l
        } else {
            w
        }
    }
}

/// The widths of the five columns.
pub open spec fn widths(jobs: Seq<JobView>) -> Seq<int> {
    Seq::new(5, |c: int| width(jobs, c))
}

/// `n` copies of a character (none where `n` is not positive).
pub open spec fn repeat_char(ch: char, n: int) -> Seq<char> {
    Seq::new(if n > 0 { n as nat } else { 0 }, |i: int| ch)
}

/// A cell's text: a space, the value padded with spaces on the right to
/// `w` characters, and a space.
pub open spec fn padded(v: Seq<char>, w: int) -> Seq<char> {
    seq![' '] + v + repeat_char(' ', w - v.len()) + seq![' '] 
}

/// Parts joined by a separator that also opens and closes the line.
pub open spec fn framed(parts: Seq<Seq<char>>, sep: char) -> Seq<char>
    decreases parts.len(),
{
    if parts.len() == 0 {
        seq![sep]
    } else {
        framed(parts.drop_last(), sep) + parts.last() + seq![sep]
    }
}

/// The border line: for each column `width + 2` dashes, joined by `+`.
pub open spec fn border(ws: Seq<int>) -> Seq<char> {
    framed(Seq::new(ws.len(), |k: int| repeat_char('-', ws[k] + 2)), '+')
}

/// The cells of a row, padded to the column widths.
pub open spec fn row_cells(vals: Seq<Seq<char>>, ws: Seq<int>) -> Seq<Seq<char>> {
    Seq::new(vals.len(), |k: int| padded(vals[k], ws[k]))
}

/// A row line: padded cells joined by `|`.
pub open spec fn row(vals: Seq<Seq<char>>, ws: Seq<int>) -> Seq<char> {
    framed(row_cells(vals, ws), '|')
}

/// The table of a list of jobs: border, header row, border, one row per job
/// in order, border.
pub open spec fn table(jobs: Seq<JobView>) -> Seq<Seq<char>> {
    let ws = widths(jobs);
    seq![border(ws), row(headers(), ws), border(ws)]
        + Seq::new(jobs.len(), |i: int| row(cells(jobs[i]), ws))
        + seq![border(ws)]
}

/// What is shown for a list of jobs: a single line when it is empty, the
/// table otherwise.
pub open spec fn listing(jobs: Seq<JobView>) -> Seq<Seq<char>> {
    if jobs.len() == 0 {
        seq!["No jobs found."@]
    } else {
        table(jobs)
    }
}

/// Whether every column's border segment has a length that fits in `usize`.
pub open spec fn fits(jobs: Seq<JobView>) -> bool {
    forall|c: int| 0 <= c < 5 ==> #[trigger] width(jobs, c) + 2 <= usize::MAX
}

/// Every column is at least as wide as its header and each of its cells.
pub proof fn lemma_width_bounds(jobs: Seq<JobView>, c: int)
    requires
        0 <= c < 5,
    ensures
        headers()[c].len() <= width(jobs, c),
        forall|i: int| 0 <= i < jobs.len() ==> (#[trigger] cells(jobs[i]))[c].len() <= width(jobs, c),
    decreases jobs.len(),
{
    if jobs.len() > 0 {
        lemma_width_bounds(jobs.drop_last(), c);
        assert forall|i: int| 0 <= i < jobs.len() implies (#[trigger] cells(jobs[i]))[c].len() <= width(jobs, c) by {
            if i < jobs.len() - 1 {
                assert(jobs.drop_last()[i] == jobs[i]);
            }
        }
    }
}

/// Framed lines over parts of pointwise equal lengths have equal lengths.
pub proof fn lemma_framed_same_len(a: Seq<Seq<char>>, b: Seq<Seq<char>>, s: char, t: char)
    requires
        a.len() == b.len(),
        forall|k: int| 0 <= k < a.len() ==> (#[trigger] a[k]).len() == b[k].len(),
    ensures
        framed(a, s).len() == framed(b, t).len(),
    decreases a.len(),
{
    if a.len() > 0 {
        assert forall|k: int| 0 <= k < a.drop_last().len() implies (#[trigger] a.drop_last()[k]).len() == b.drop_last()[k].len() by {
            assert(a.drop_last()[k] == a[k]);
            assert(b.drop_last()[k] == b[k]);
        }
        lemma_framed_same_len(a.drop_last(), b.drop_last(), s, t);
    }
}

/// The table of a non-empty list of jobs is aligned: every line (borders,
/// header and rows) has the same length, and each cell of the header and of
/// every row, margins included, is exactly its column's width plus two.
pub proof fn lemma_table_aligned(jobs: Seq<JobView>)
    requires
        jobs.len() > 0,
    ensures
        forall|i: int, j: int| 0 <= i < table(jobs).len() && 0 <= j < table(jobs).len()
            ==> (#[trigger] table(jobs)[i]).len() == (#[trigger] table(jobs)[j]).len(),
        forall|k: int| 0 <= k < 5 ==> (#[trigger] row_cells(headers(), widths(jobs))[k]).len() == widths(jobs)[k] + 2,
        forall|i: int, k: int| 0 <= i < jobs.len() && 0 <= k < 5
            ==> (#[trigger] row_cells(cells(jobs[i]), widths(jobs))[k]).len() == widths(jobs)[k] + 2,
{
    let ws = widths(jobs);
    let dashes = Seq::new(ws.len(), |k: int| repeat_char('-', ws[k] + 2));
    assert forall|k: int| 0 <= k < 5 implies (#[trigger] row_cells(headers(), ws)[k]).len() == ws[k] + 2 by {
        lemma_width_bounds(jobs, k);
    }
    assert forall|i: int, k: int| 0 <= i < jobs.len() && 0 <= k < 5
        implies (#[trigger] row_cells(cells(jobs[i]), ws)[k]).len() == ws[k] + 2 by {
        lemma_width_bounds(jobs, k);
        assert(cells(jobs[i])[k].len() <= width(jobs, k));
    }
    lemma_framed_same_len(dashes, row_cells(headers(), ws), '+', '|');
    assert forall|i: int| 0 <= i < jobs.len() implies #[trigger] row(cells(jobs[i]), ws).len() == border(ws).len() by {
        lemma_framed_same_len(dashes, row_cells(cells(jobs[i]), ws), '+', '|');
    }
    let t = table(jobs);
    assert forall|i: int| 0 <= i < t.len() implies (#[trigger] t[i]).len() == border(ws).len() by {
        if 3 <= i < t.len() - 1 {
            assert(t[i] == row(cells(jobs[i - 3]), ws));
        }
    }
}

/// The views of a vector of strings.
pub open spec fn texts(v: Seq<String>) -> Seq<Seq<char>> {
    v.map_values(|s: String| s@)
}

/// Widths as integers.
pub open spec fn ints(v: Seq<usize>) -> Seq<int> {
    v.map_values(|w: usize| w as int)
}

fn repeat_str(ch: &str, n: usize) -> (r: String)
    requires
        ch@.len() == 1,
    ensures
        r@ == repeat_char(ch@[0], n as int),
{
    let mut s = String::new();
    let mut i: usize = 0;
    while i < n
        invariant
            i <= n,
            ch@.len() == 1,
            s@ =~= repeat_char(ch@[0], i as int),
        decreases n - i,
    {
        s.append(ch);
        i = i + 1;
        assert(s@ =~= repeat_char(ch@[0], i as int));
    }
    s
}

fn pad_cell(v: &String, w: usize) -> (r: String)
    ensures
        r@ == padded(v@, w as int),
{
    proof { reveal_strlit(" "); }
    let len = v.as_str().unicode_len();
    let fill: usize = if w > len { w - len } else { 0 };
    let mut s = String::from_str(" ");
    s.append(v.as_str());
    let sp = repeat_str(" ", fill);
    s.append(sp.as_str());
    s.append(" ");
    assert(s@ =~= padded(v@, w as int));
    s
}

fn frame(parts: &Vec<String>, sep: &str) -> (r: String)
    requires
        sep@.len() == 1,
    ensures
        r@ == framed(texts(parts@), sep@[0]),
{
    let mut s = String::from_str(sep);
    let mut i: usize = 0;
    while i < parts.len()
        invariant
            i <= parts@.len(),
            sep@.len() == 1,
            s@ == framed(texts(parts@).take(i as int), sep@[0]),
        decreases parts@.len() - i,
    {
        proof {
            assert(texts(parts@).take(i + 1).drop_last() =~= texts(parts@).take(i as int));
        }
        s.append(parts[i].as_str());
        s.append(sep);
        i = i + 1;
    }
    assert(texts(parts@).take(parts@.len() as int) =~= texts(parts@));
    s
}

fn border_line(ws: &Vec<usize>) -> (r: String)
    requires
        forall|k: int| 0 <= k < ws@.len() ==> ws@[k] + 2 <= usize::MAX,
    ensures
        r@ == border(ints(ws@)),
{
    proof { reveal_strlit("-"); reveal_strlit("+"); }
    let mut parts: Vec<String> = Vec::new();
    let mut k: usize = 0;
    while k < ws.len()
        invariant
            k <= ws@.len(),
            forall|k: int| 0 <= k < ws@.len() ==> ws@[k] + 2 <= usize::MAX,
            parts@.len() == k,
            forall|q: int| 0 <= q < k ==> (#[trigger] parts@[q])@ == repeat_char('-', ws@[q] + 2),
        decreases ws@.len() - k,
    {
        proof { reveal_strlit("-"); }
        let seg = repeat_str("-", ws[k] + 2);
        let ghost before = parts@;
        parts.push(seg);
        assert(parts@ == before.push(seg));
        k = k + 1;
    }
    assert(texts(parts@) =~= Seq::new(ws@.len(), |q: int| repeat_char('-', ints(ws@)[q] + 2)));
    frame(&parts, "+")
}

fn row_line(vals: &Vec<String>, ws: &Vec<usize>) -> (r: String)
    requires
        vals@.len() == ws@.len(),
    ensures
        r@ == row(texts(vals@), ints(ws@)),
{
    proof { reveal_strlit("|"); }
    let mut parts: Vec<String> = Vec::new();
    let mut k: usize = 0;
    while k < vals.len()
        invariant
            k <= vals@.len(),
            vals@.len() == ws@.len(),
            parts@.len() == k,
            forall|q: int| 0 <= q < k ==> (#[trigger] parts@[q])@ == padded(vals@[q]@, ws@[q] as int),
        decreases vals@.len() - k,
    {
        let cell = pad_cell(&vals[k], ws[k]);
        let ghost before = parts@;
        parts.push(cell);
        assert(parts@ == before.push(cell));
        k = k + 1;
    }
    assert(texts(parts@) =~= row_cells(texts(vals@), ints(ws@)));
    frame(&parts, "|")
}

fn header_texts() -> (r: Vec<String>)
    ensures
        r@.len() == 5,
        texts(r@) == headers(),
{
    let r = vec![
        String::from_str("ID"),
        String::from_str("Name"),
        String::from_str("Status"),
        String::from_str("Inserted At"),
        String::from_str("Updated At"),
    ];
    assert(texts(r@) =~= headers());
    r
}

fn job_cells(job: &Job) -> (r: Vec<String>)
    ensures
        r@.len() == 5,
        texts(r@) == cells(job@),
{
    let r = vec![
        decimal_text(job.id),
        job.name.clone(),
        job.status.clone(),
        job.inserted_at.clone(),
        job.updated_at.clone(),
    ];
    assert(texts(r@) =~= cells(job@));
    r
}

/// The width of each column of the table of `jobs`.
pub fn column_widths(jobs: &Vec<Job>) -> (r: Vec<usize>)
    ensures
        r@.len() == 5,
        forall|c: int| 0 <= c < 5 ==> r@[c] == width(jobs_view(jobs@), c),
{
    proof {
        reveal_strlit("ID"); reveal_strlit("Name"); reveal_strlit("Status");
        reveal_strlit("Inserted At"); reveal_strlit("Updated At");
    }
    let mut ws: Vec<usize> = vec![2, 4, 6, 11, 10];
    let ghost all = jobs_view(jobs@);
    let mut i: usize = 0;
    while i < jobs.len()
        invariant
            i <= jobs@.len(),
            all == jobs_view(jobs@),
            ws@.len() == 5,
            forall|c: int| 0 <= c < 5 ==> ws@[c] == width(all.take(i as int), c),
        decreases jobs@.len() - i,
    {
        let cs = job_cells(&jobs[i]);
        proof {
            assert(all.take(i + 1).drop_last() =~= all.take(i as int));
            assert(all.take(i + 1).last() == jobs@[i as int]@);
        }
        let mut c: usize = 0;
        while c < 5
            invariant
                i < jobs@.len(),
                all == jobs_view(jobs@),
                c <= 5,
                ws@.len() == 5,
                cs@.len() == 5,
                texts(cs@) == cells(jobs@[i as int]@),
                all.take(i + 1).drop_last() == all.take(i as int),
                all.take(i + 1).last() == jobs@[i as int]@,
                forall|d: int| 0 <= d < c ==> ws@[d] == width(all.take(i + 1), d),
                forall|d: int| c <= d < 5 ==> ws@[d] == width(all.take(i as int), d),
            decreases 5 - c,
        {
            let l = cs[c].as_str().unicode_len();
            assert(l == cells(jobs@[i as int]@)[c as int].len());
            if l > ws[c] {
                ws.set(c, l);
            }
            c = c + 1;
        }
        i = i + 1;
    }
    assert(all.take(jobs@.len() as int) =~= all);
    ws
}

/// Whether the table of `jobs` can be laid out: each column's border
/// segment, `width + 2` long, has a length that fits in `usize`.
pub fn table_fits(jobs: &Vec<Job>) -> (r: bool)
    ensures
        r == fits(jobs_view(jobs@)),
{
    let ws = column_widths(jobs);
    let mut c: usize = 0;
    while c < 5
        invariant
            c <= 5,
            ws@.len() == 5,
            forall|d: int| 0 <= d < 5 ==> ws@[d] == width(jobs_view(jobs@), d),
            forall|d: int| 0 <= d < c ==> width(jobs_view(jobs@), d) + 2 <= usize::MAX,
        decreases 5 - c,
    {
        if ws[c] > usize::MAX - 2 {
            assert(!(width(jobs_view(jobs@), c as int) + 2 <= usize::MAX));
            return false;
        }
        c = c + 1;
    }
    true
}

/// The lines of the table of `jobs`.
pub fn render_table(jobs: &Vec<Job>) -> (r: Vec<String>)
    requires
        fits(jobs_view(jobs@)),
    ensures
        texts(r@) == table(jobs_view(jobs@)),
{
    let ws = column_widths(jobs);
    let ghost all = jobs_view(jobs@);
    proof {
        assert(ints(ws@) =~= widths(all));
        assert forall|k: int| 0 <= k < ws@.len() implies ws@[k] + 2 <= usize::MAX by {
            assert(width(all, k) + 2 <= usize::MAX);
        }
    }
    let sep = border_line(&ws);
    let mut lines: Vec<String> = Vec::new();
    lines.push(sep.clone());
    let hs = header_texts();
    lines.push(row_line(&hs, &ws));
    lines.push(sep.clone());
    let mut i: usize = 0;
    while i < jobs.len()
        invariant
            i <= jobs@.len(),
            all == jobs_view(jobs@),
            ints(ws@) == widths(all),
            ws@.len() == 5,
            sep@ == border(widths(all)),
            lines@.len() == i + 3,
            lines@[0]@ == border(widths(all)),
            lines@[1]@ == row(headers(), widths(all)),
            lines@[2]@ == border(widths(all)),
            forall|q: int| 0 <= q < i ==> (#[trigger] lines@[q + 3])@ == row(cells(all[q]), widths(all)),
        decreases jobs@.len() - i,
    {
        let cs = job_cells(&jobs[i]);
        let line = row_line(&cs, &ws);
        let ghost before = lines@;
        lines.push(line);
        assert(lines@ == before.push(line));
        assert(jobs_view(jobs@)[i as int] == jobs@[i as int]@);
        assert(lines@[i + 3]@ == row(cells(all[i as int]), widths(all)));
        i = i + 1;
    }
    lines.push(sep);
    assert forall|q: int| 3 <= q < lines@.len() - 1 implies texts(lines@)[q] == table(all)[q] by {
        assert(lines@[(q - 3) + 3]@ == row(cells(all[q - 3]), widths(all)));
    }
    assert(texts(lines@) =~= table(all));
    lines
}

/// The lines shown for a list of jobs: "No jobs found." when it is empty,
/// its table otherwise.
pub fn render_listing(jobs: &Vec<Job>) -> (r: Vec<String>)
    requires
        fits(jobs_view(jobs@)),
    ensures
        texts(r@) == listing(jobs_view(jobs@)),
{
    if jobs.len() == 0 {
        proof { reveal_strlit("No jobs found."); }
        let r = vec![String::from_str("No jobs found.")];
        assert(texts(r@) =~= listing(jobs_view(jobs@)));
        r
    } else {
        render_table(jobs)
    }
}

} // verus!
