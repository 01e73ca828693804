//! What a miner may do before it has given the miner password.
use crate::job::{JobModel, StratumJob};
use crate::json::{json_model, JsonModel};
use crate::stratum::{
    gives_password, handle_request, id_or, job_view, line_request, line_step, password_is_given,
    read_line, refuse, refused, reply_id, request_step, send_one, text_view, Request, RequestModel,
    Step, StepModel,
};
use crate::text::same_text;
use serde_json::Value;
use vstd::prelude::*;

verus! {

/// What was last answered to a miner that asked to be authorized.
#[derive(Clone, Copy, Debug, PartialEq, Eq, Structural)]
pub enum Standing {
    /// It has not asked yet.
    Unasked,
    Authorized,
    Refused,
}

/// Whether a request is refused for want of authorization. Where a miner password is set, a
/// share is, unless the miner is authorized, and a subscription is once the miner was refused.
/// A miner subscribes before it asks to be authorized, so one that has not asked may subscribe.
pub open spec fn is_barred(
    password: Option<Seq<char>>,
    standing: Standing,
    request: RequestModel,
) -> bool {
    password is Some && {
        ||| request.method == "mining.submit"@ && standing != Standing::Authorized
        ||| request.method == "mining.subscribe"@ && standing == Standing::Refused
    }
}

/// The reply to a request that is refused for want of authorization.
pub open spec fn unauthorized(request: RequestModel) -> JsonModel {
    let otherwise = if request.method == "mining.submit"@ {
        3
    } else {
        1
    };
    refused(reply_id(request, otherwise), 24, "Unauthorized worker"@)
}

/// How a miner stands after a request: the last answer to `mining.authorize` counts.
pub open spec fn standing_after(
    password: Option<Seq<char>>,
    standing: Standing,
    request: RequestModel,
) -> Standing {
    if request.method != "mining.authorize"@ {
        standing
    } else if password matches Some(password) && !gives_password(request, password) {
        Standing::Refused
    } else {
        Standing::Authorized
    }
}

/// What is done about a request of a miner with this standing.
pub open spec fn session_step(
    standing: Standing,
    job: Option<JobModel>,
    password: Option<Seq<char>>,
    request: RequestModel,
) -> StepModel {
    if is_barred(password, standing, request) {
        StepModel::Send(seq![unauthorized(request)])
    } else {
        request_step(job, password, request)
    }
}

/// How a miner stands after these requests, from the start of its session.
pub open spec fn standing_over(password: Option<Seq<char>>, requests: Seq<RequestModel>) -> Standing
    decreases requests.len(),
{
    if requests.len() == 0 {
        Standing::Unasked
    } else {
        standing_after(password, standing_over(password, requests.drop_last()), requests.last())
    }
}

/// Decides whether a request is refused for want of authorization, and gives the reply if so.
pub fn admits(password: Option<&str>, standing: Standing, request: &Request) -> (refusal: Option<Value>)
    ensures
        refusal is Some <==> is_barred(text_view(password), standing, request@),
        refusal is Some ==> json_model(refusal->0) == unauthorized(request@),
{
    if password.is_none() {
        return None;
    }
    if same_text(&request.method, "mining.submit") {
        if standing != Standing::Authorized {
            return Some(refuse(id_or(request, 3), 24, "Unauthorized worker"));
        }
    } else if same_text(&request.method, "mining.subscribe") {
        if standing == Standing::Refused {
            return Some(refuse(id_or(request, 1), 24, "Unauthorized worker"));
        }
    }
    proof {
        reveal_strlit("mining.submit");
        reveal_strlit("mining.subscribe");
        assert("mining.submit"@.len() == 13);
        assert("mining.subscribe"@.len() == 16);
    }
    None
}

/// Decides how a miner stands after a request.
pub fn next_standing(password: Option<&str>, standing: Standing, request: &Request) -> (next: Standing)
    ensures
        next == standing_after(text_view(password), standing, request@),
{
    if !same_text(&request.method, "mining.authorize") {
        return standing;
    }
    let allowed = match password {
        Some(password) => password_is_given(request, password),
        None => true,
    };
    if allowed {
        Standing::Authorized
    } else {
        Standing::Refused
    }
}

/// Decides what is done about a request of a miner, and how the miner stands after it.
pub fn handle_session_request(
    standing: Standing,
    job: Option<&StratumJob>,
    password: Option<&str>,
    request: &Request,
) -> (result: (Standing, Step))
    ensures
        result.0 == standing_after(text_view(password), standing, request@),
        result.1@ == session_step(standing, job_view(job), text_view(password), request@),
{
    let step = match admits(password, standing, request) {
        Some(reply) => send_one(reply),
        None => handle_request(job, password, request),
    };
    (next_standing(password, standing, request), step)
}

/// Decides what is done about a line of a miner, and how the miner stands after it. A line that
/// holds no request leaves the standing as it is.
pub fn handle_session_line(
    standing: Standing,
    job: Option<&StratumJob>,
    password: Option<&str>,
    line: &str,
) -> (result: (Standing, Step))
    ensures
        match line_request(line@) {
            Some(request) => {
                &&& result.0 == standing_after(text_view(password), standing, request)
                &&& result.1@ == session_step(standing, job_view(job), text_view(password), request)
            },
            None => {
                &&& result.0 == standing
                &&& result.1@ == line_step(job_view(job), text_view(password), line@)
            },
        },
{
    match read_line(line) {
        Ok(request) => handle_session_request(standing, job, password, &request),
        Err(step) => (standing, step),
    }
}

} // verus!
