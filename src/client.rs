//! The jobs request: its URL, the decoding of its response, and what the
//! command shows for each outcome.
use vstd::prelude::*;
use crate::config::Config;
use crate::job::{Job, jobs_of_text, jobs_view};
use crate::table::{fits, listing, render_listing, table_fits, texts};
use crate::text::{decimal, decimal_text};

verus! {

/// Why the list of jobs could not be had.
pub enum ClientError {
    /// The request could not be sent or its response not fully received.
    Network(String),
    /// The response body is not a JSON array of job records.
    Decode(String),
}

impl ClientError {
    /// The description of the failure.
    pub fn message(&self) -> (r: String)
        ensures
            match self {
                ClientError::Network(m) => r@ == m@,
                ClientError::Decode(m) => r@ == m@,
            },
    {
        match self {
            ClientError::Network(m) => m.clone(),
            ClientError::Decode(m) => m.clone(),
        }
    }
}

/// The URL that lists the jobs of the service a configuration names.
pub open spec fn jobs_url_of(host: Seq<char>, port: int) -> Seq<char> {
    "http://"@ + host + ":"@ + decimal(port) + "/api/v1/jobs"@
}

/// The URL that lists the jobs: `http://{api_endpoint}:{port}/api/v1/jobs`.
pub fn jobs_url(config: &Config) -> (r: String)
    ensures
        r@ == jobs_url_of(config.api_endpoint@, config.port as int),
{
    let mut s = String::from_str("http://");
    s.append(config.api_endpoint.as_str());
    s.append(":");
    let p = decimal_text(config.port);
    s.append(p.as_str());
    s.append("/api/v1/jobs");
    s
}

/// Decodes a response body into the list of jobs it holds, in order.
pub fn decode_response(body: &str) -> (r: Result<Vec<Job>, ClientError>)
    ensures
        match r {
            Ok(jobs) => jobs_of_text(body@) == Some(jobs_view(jobs@)),
            Err(e) => jobs_of_text(body@).is_none() && e is Decode,
        },
{
    match Job::parse_jobs(body) {
        Ok(jobs) => Ok(jobs),
        Err(msg) => Err(ClientError::Decode(msg)),
    }
}

/// The lines echoed before anything else: the raw body, when debugging and a
/// body was received.
pub open spec fn echo_lines(debug: bool, fetched: Result<String, String>) -> Seq<Seq<char>> {
    match fetched {
        Ok(body) => if debug {
            seq!["Raw API response:"@, body@]
        } else {
            Seq::empty()
        },
        Err(_) => Seq::empty(),
    }
}

/// Whether a line reports an error: it starts with `Error: `.
pub open spec fn is_error_line(line: Seq<char>) -> bool {
    line.len() >= 7 && line.take(7) == "Error: "@
}

fn error_line(msg: &str) -> (r: String)
    ensures
        r@ == "Error: "@ + msg@,
        is_error_line(r@),
{
    proof { reveal_strlit("Error: "); }
    let mut s = String::from_str("Error: ");
    s.append(msg);
    assert(("Error: "@ + msg@).take(7) =~= "Error: "@);
    s
}

/// The lines the jobs command shows, given the configuration and the
/// outcome of the request: the response body, or the transport's error
/// message.
///
/// A transport error gives one line, `Error: ` and its message. A received
/// body is first echoed when debugging; then come the listing of its jobs,
/// or, where the body is not a list of jobs, one error line and no table.
pub fn command_output(config: &Config, fetched: Result<String, String>) -> (r: Vec<String>)
    ensures
        ({
            let echo = echo_lines(config.debug, fetched);
            &&& r@.len() > echo.len()
            &&& texts(r@).take(echo.len() as int) == echo
            &&& match fetched {
                Err(m) => texts(r@) == seq!["Error: "@ + m@],
                Ok(body) => match jobs_of_text(body@) {
                    None => r@.len() == echo.len() + 1 && is_error_line(r@.last()@),
                    Some(jobs) => if fits(jobs) {
                        texts(r@).skip(echo.len() as int) == listing(jobs)
                    } else {
                        r@.len() == echo.len() + 1 && is_error_line(r@.last()@)
                    },
                },
            }
        }),
{
    let ghost echo = echo_lines(config.debug, fetched);
    match fetched {
        Err(m) => {
            let r = vec![error_line(m.as_str())];
            assert(texts(r@) =~= seq!["Error: "@ + m@]);
            assert(texts(r@).take(0) =~= echo);
            r
        },
        Ok(body) => {
            let mut out: Vec<String> = Vec::new();
            if config.debug {
                proof { reveal_strlit("Raw API response:"); }
                out.push(String::from_str("Raw API response:"));
                out.push(body.clone());
            }
            assert(texts(out@) =~= echo);
            let ghost n = out@.len();
            match decode_response(body.as_str()) {
                Err(e) => {
                    let m = e.message();
                    out.push(error_line(m.as_str()));
                },
                Ok(jobs) => {
                    if table_fits(&jobs) {
                        let lines = render_listing(&jobs);
                        let mut i: usize = 0;
                        while i < lines.len()
                            invariant
                                i <= lines@.len(),
                                out@.len() == n + i,
                                texts(out@).take(n as int) == echo,
                                forall|q: int| 0 <= q < i ==> (#[trigger] out@[n + q])@ == lines@[q]@,
                            decreases lines@.len() - i,
                        {
                            let ghost before = out@;
                            out.push(lines[i].clone());
                            assert(texts(out@).take(n as int) =~= texts(before).take(n as int));
                            i = i + 1;
                        }
                        assert forall|q: int| 0 <= q < lines@.len() implies texts(out@).skip(n as int)[q] == texts(lines@)[q] by {
                            assert(out@[n + q]@ == lines@[q]@);
                        }
                        assert(texts(out@).skip(n as int) =~= texts(lines@));
                        assert(listing(jobs_view(jobs@)).len() > 0);
                    } else {
                        out.push(error_line("the job table is too wide to lay out"));
                    }
                },
            }
            assert(texts(out@).take(n as int) =~= echo);
            out
        },
    }
}

} // verus!
