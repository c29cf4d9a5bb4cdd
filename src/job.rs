//! Job records as the service lists them, and their decoding.
use vstd::prelude::*;
use crate::json::{Json, json_of, parse_json, member, str_value, i32_value, strs_value, find_member, get_str, get_i32, get_strs};

verus! {

/// One job record of the service.
pub struct Job {
    pub id: i32,
    pub name: String,
    pub description: String,
    pub status: String,
    pub requested_capabilities: Vec<String>,
    pub inserted_at: String,
    pub updated_at: String,
}

/// The mathematical value of a `Job`.
pub ghost struct JobView {
    pub id: int,
    pub name: Seq<char>,
    pub description: Seq<char>,
    pub status: Seq<char>,
    pub requested_capabilities: Seq<Seq<char>>,
    pub inserted_at: Seq<char>,
    pub updated_at: Seq<char>,
}

impl View for Job {
    type V = JobView;

    open spec fn view(&self) -> JobView {
        JobView {
            id: self.id as int,
            name: self.name@,
            description: self.description@,
            status: self.status@,
            requested_capabilities: self.requested_capabilities@.map_values(|s: String| s@),
            inserted_at: self.inserted_at@,
            updated_at: self.updated_at@,
        }
    }
}

/// The values of a sequence of jobs.
pub open spec fn jobs_view(jobs: Seq<Job>) -> Seq<JobView> {
    jobs.map_values(|j: Job| j@)
}

/// The job a JSON value stands for: an object with an integer `id` in the
/// range of `i32`, strings `name`, `description`, `status`, `inserted_at` and
/// `updated_at`, and an array of strings `requested_capabilities`. Other
/// members are ignored.
pub open spec fn job_of_json(j: Json) -> Option<JobView> {
    match j {
        Json::Obj(ms) => {
            let id = i32_value(member(ms@, "id"@));
            let name = str_value(member(ms@, "name"@));
            let desc = str_value(member(ms@, "description"@));
            let status = str_value(member(ms@, "status"@));
            let caps = strs_value(member(ms@, "requested_capabilities"@));
            let ins = str_value(member(ms@, "inserted_at"@));
            let upd = str_value(member(ms@, "updated_at"@));
            if id is Some && name is Some && desc is Some && status is Some && caps is Some
                && ins is Some && upd is Some {
                Some(JobView {
                    id: id->0,
                    name: name->0,
                    description: desc->0,
                    status: status->0,
                    requested_capabilities: caps->0,
                    inserted_at: ins->0,
                    updated_at: upd->0,
                })
            } else {
                None
            }
        },
        _ => None,
    }
}

/// Whether a JSON value stands for a job.
pub open spec fn is_job(j: Json) -> bool {
    job_of_json(j) is Some
}

/// The jobs a JSON value stands for: an array whose every element stands for
/// a job, in the array's order. Anything else stands for none.
pub open spec fn jobs_of_json(j: Json) -> Option<Seq<JobView>> {
    match j {
        Json::Arr(items) => if forall|k: int| 0 <= k < items@.len() ==> is_job(#[trigger] items@[k]) {
            Some(items@.map_values(|x: Json| job_of_json(x)->0))
        } else {
            None
        },
        _ => None,
    }
}

/// The jobs a response body stands for, if any.
pub open spec fn jobs_of_text(text: Seq<char>) -> Option<Seq<JobView>> {
    match json_of(text) {
        Some(j) => jobs_of_json(j),
        None => None,
    }
}

/// A body that is a JSON object, not an array, stands for no list of jobs.
pub proof fn lemma_object_is_not_job_list(ms: Vec<(String, Json)>)
    ensures
        jobs_of_json(Json::Obj(ms)).is_none(),
{
}

/// An array with an element that is an object lacking `status` stands for
/// no list of jobs.
pub proof fn lemma_missing_status_rejected(items: Vec<Json>, k: int)
    requires
        0 <= k < items@.len(),
        items@[k] matches Json::Obj(ms) && member(ms@, "status"@).is_none(),
    ensures
        jobs_of_json(Json::Arr(items)).is_none(),
{
    assert(!is_job(items@[k]));
}

impl Job {
    /// Decodes one job from a parsed JSON value.
    pub fn from_json(j: &Json) -> (r: Option<Job>)
        ensures
            match r {
                Some(job) => job_of_json(*j) == Some(job@),
                None => job_of_json(*j).is_none(),
            },
    {
        match j {
            Json::Obj(ms) => {
                let id = get_i32(find_member(ms, "id"));
                let name = get_str(find_member(ms, "name"));
                let desc = get_str(find_member(ms, "description"));
                let status = get_str(find_member(ms, "status"));
                let caps = get_strs(find_member(ms, "requested_capabilities"));
                let ins = get_str(find_member(ms, "inserted_at"));
                let upd = get_str(find_member(ms, "updated_at"));
                match (id, name, desc, status, caps, ins, upd) {
                    (Some(id), Some(name), Some(description), Some(status), Some(requested_capabilities),
                        Some(inserted_at), Some(updated_at)) => Some(Job {
                        id,
                        name,
                        description,
                        status,
                        requested_capabilities,
                        inserted_at,
                        updated_at,
                    }),
                    _ => None,
                }
            },
            _ => None,
        }
    }

    /// Decodes a list of jobs from a parsed JSON value: it must be an array
    /// whose every element is a job; order is kept.
    pub fn from_json_list(j: &Json) -> (r: Result<Vec<Job>, String>)
        ensures
            match r {
                Ok(jobs) => jobs_of_json(*j) == Some(jobs_view(jobs@)),
                Err(_) => jobs_of_json(*j).is_none(),
            },
    {
        match j {
            Json::Arr(items) => {
                let mut out: Vec<Job> = Vec::new();
                let mut i: usize = 0;
                while i < items.len()
                    invariant
                        i <= items@.len(),
                        *j == Json::Arr(*items),
                        out@.len() == i,
                        forall|k: int| 0 <= k < i ==> is_job(#[trigger] items@[k]),
                        forall|k: int| 0 <= k < i ==> Some((#[trigger] out@[k])@) == job_of_json(items@[k]),
                    decreases items@.len() - i,
                {
                    match Job::from_json(&items[i]) {
                        Some(job) => out.push(job),
                        None => {
                            assert(!is_job(items@[i as int]));
                            return Err(String::from_str("a job record is missing a field or has one of the wrong type"));
                        },
                    }
                    i = i + 1;
                }
                assert(jobs_view(out@) =~= items@.map_values(|x: Json| job_of_json(x)->0));
                Ok(out)
            },
            _ => Err(String::from_str("the response is not a JSON array")),
        }
    }

    /// Parses a response body into the list of jobs it holds.
    pub fn parse_jobs(json_response: &str) -> (r: Result<Vec<Job>, String>)
        ensures
            match r {
                Ok(jobs) => jobs_of_text(json_response@) == Some(jobs_view(jobs@)),
                Err(_) => jobs_of_text(json_response@).is_none(),
            },
    {
        match parse_json(json_response) {
            Ok(j) => Job::from_json_list(&j),
            Err(msg) => Err(msg),
        }
    }
}

} // verus!
