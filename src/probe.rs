//! The probe executor and the check pipeline: what to probe for a monitor,
//! how a probe's result is classified, and how it is recorded.
use vstd::prelude::*;
use vstd::string::{StrSliceExecFns, StringExecFns};
use crate::model::{error_text, AppError, Monitor, MonitorStatus};
use crate::store::{find_monitor, record_status, MonitorStore};
use crate::text::{decimal, decimal_string, has_prefix, starts_with, str_eq};

verus! {

/// The standard reason phrase of HTTP status `code`, if it has one.
pub uninterp spec fn canonical_reason_of(code: u16) -> Option<Seq<char>>;

/// Relies on `StatusCode::from_u16` and `StatusCode::canonical_reason` of
/// the `http` crate, as re-exported by reqwest: the reason phrase of a
/// status code; codes outside 100..=999 are refused by `from_u16`.
#[verifier::external_body]
fn canonical_reason(code: u16) -> (r: Option<String>)
    ensures
        match r {
            Some(p) => canonical_reason_of(code) == Some(p@),
            None => canonical_reason_of(code).is_none(),
        },
        code < 100 || code >= 1000 ==> r.is_none(),
{
    reqwest::StatusCode::from_u16(code).ok().and_then(|s| s.canonical_reason()).map(|s| s.to_string())
}

/// How a status code reads: its number, a space and its reason phrase.
pub open spec fn status_text(code: u16) -> Seq<char> {
    decimal(code as nat) + " "@ + match canonical_reason_of(code) {
        Some(p) => p,
        None => "<unknown status code>"@,
    }
}

/// The failure detail of an HTTP probe answered with `code`.
pub open spec fn http_failure_text(code: u16) -> Seq<char> {
    "HTTP status code: "@ + status_text(code)
}

/// The HTTP probe of a target that answered with `code` succeeds iff the
/// code is in the 2xx range.
pub fn check_http(code: u16) -> (r: Result<(), AppError>)
    ensures
        200 <= code < 300 ==> r is Ok,
        !(200 <= code < 300) ==> (r matches Err(AppError::UpstreamFailure(m)) && m@
            == http_failure_text(code)),
{
    if 200 <= code && code < 300 {
        return Ok(());
    }
    let reason = match canonical_reason(code) {
        Some(p) => p,
        None => String::from_str("<unknown status code>"),
    };
    let text = String::from_str("HTTP status code: ").concat(decimal_string(code as u64).as_str()).concat(
        " ",
    ).concat(reason.as_str());
    proof {
        assert(text@ == "HTTP status code: "@ + (decimal(code as nat) + " "@ + reason@));
    }
    Err(AppError::UpstreamFailure(text))
}

/// The ping probe succeeds iff the reachability check exited cleanly in
/// time.
pub fn check_ping(exited_ok: bool) -> (r: Result<(), AppError>)
    ensures
        exited_ok ==> r is Ok,
        !exited_ok ==> (r matches Err(AppError::UpstreamFailure(m)) && m@ == "Ping failed"@),
{
    if exited_ok {
        Ok(())
    } else {
        Err(AppError::UpstreamFailure(String::from_str("Ping failed")))
    }
}

/// The failure of a probe that could not be run: the transport error text.
pub fn transport_failure(detail: String) -> (r: AppError)
    ensures
        r == AppError::UpstreamFailure(detail),
{
    AppError::UpstreamFailure(detail)
}

/// The failure of a probe kind that is not supported.
pub fn unsupported_kind() -> (r: AppError)
    ensures
        r matches AppError::BadRequest(m) && m@ == "Unsupported monitor type"@,
{
    AppError::BadRequest(String::from_str("Unsupported monitor type"))
}

/// `u` without a leading `http://` or `https://`.
pub open spec fn strip_scheme(u: Seq<char>) -> Seq<char> {
    if starts_with(u, "http://"@) {
        u.skip(7)
    } else if starts_with(u, "https://"@) {
        u.skip(8)
    } else {
        u
    }
}

/// `h` is the host part of `u`: what precedes the first `/` once the scheme
/// is stripped.
pub open spec fn is_host_of(h: Seq<char>, u: Seq<char>) -> bool {
    let r = strip_scheme(u);
    &&& starts_with(r, h)
    &&& forall|i: int| 0 <= i < h.len() ==> h[i] != '/'
    &&& (h.len() == r.len() || r[h.len() as int] == '/')
}

/// The host that a ping probe of `url` checks.
pub fn ping_host(url: &str) -> (r: String)
    ensures
        is_host_of(r@, url@),
{
    proof {
        reveal_strlit("http://");
        reveal_strlit("https://");
    }
    let n = url.unicode_len();
    let rest: &str = if has_prefix(url, "http://") {
        url.substring_char(7, n)
    } else if has_prefix(url, "https://") {
        url.substring_char(8, n)
    } else {
        url
    };
    let m = rest.unicode_len();
    let mut i: usize = 0;
    while i < m && rest.get_char(i) != '/'
        invariant
            m == rest@.len(),
            i <= m,
            forall|a: int| 0 <= a < i ==> rest@[a] != '/',
        decreases m - i,
    {
        i = i + 1;
    }
    let host = rest.substring_char(0, i);
    proof {
        assert(rest@ == strip_scheme(url@));
        assert(rest@.take(i as int) =~= host@);
    }
    String::from_str(host)
}

/// What to probe for a monitor.
#[derive(Debug)]
pub enum ProbePlan {
    /// A GET of `url` bounded by `timeout_secs`.
    Http { url: String, timeout_secs: u64 },
    /// A reachability check of `host` bounded by `timeout_secs`.
    Ping { host: String, timeout_secs: u64 },
    /// A kind that is not supported: no I/O is attempted.
    Unsupported,
}

/// A timeout in seconds, negative ones read as zero.
pub open spec fn timeout_secs(t: i32) -> u64 {
    if t <= 0 { 0 } else { t as u64 }
}

/// The probe that `m` calls for.
pub open spec fn plans(r: ProbePlan, m: Monitor) -> bool {
    if m.type_@ == "http"@ || m.type_@ == "https"@ {
        r == ProbePlan::Http { url: m.url, timeout_secs: timeout_secs(m.timeout) }
    } else if m.type_@ == "ping"@ {
        r matches ProbePlan::Ping { host, timeout_secs: t } && is_host_of(host@, m.url@) && t
            == timeout_secs(m.timeout)
    } else {
        r is Unsupported
    }
}

/// The status and failure detail that a probe result is recorded with.
pub open spec fn recorded_as(result: Result<(), AppError>) -> (MonitorStatus, Option<Seq<char>>) {
    match result {
        Ok(_) => (MonitorStatus::Up, None),
        Err(e) => (MonitorStatus::Down, Some(error_text(e))),
    }
}

pub struct MonitorService {}

impl MonitorService {
    pub fn new() -> Self {
        MonitorService {}
    }

    /// Stores a new monitor of `user_id`.
    pub fn create(&self, store: &mut MonitorStore, user_id: i64, input: crate::model::CreateMonitor, now: i64) -> (r: Result<Monitor, AppError>)
        requires
            old(store).wf(),
        ensures
            final(store).wf(),
            old(store).can_add_monitor() ==> (r matches Ok(m) && m == crate::store::new_monitor(
                m.id,
                user_id,
                input,
                crate::store::creation_stamp(old(store).monitors(), now),
            ) && m.id == old(store).monitor_counter() && final(store).monitor_counter() == old(
                store).monitor_counter() + 1 && final(store).monitors() == old(store).monitors().push(m)),
            !old(store).can_add_monitor() ==> (r matches Err(AppError::DatabaseError) && final(store).monitors()
                == old(store).monitors()),
    {
        Monitor::create(store, user_id, input, now)
    }

    /// Monitor `id` of `user_id`, or `NotFound`: a monitor of another owner
    /// is not told apart from a missing one.
    pub fn get(&self, store: &MonitorStore, id: i64, user_id: i64) -> (r: Result<Monitor, AppError>)
        requires
            store.wf(),
        ensures
            match find_monitor(store.monitors(), id, user_id) {
                Some(m) => r == Ok::<Monitor, AppError>(m),
                None => r matches Err(AppError::NotFound),
            },
    {
        match Monitor::find_by_id(store, id, user_id) {
            Some(m) => Ok(m),
            None => Err(AppError::NotFound),
        }
    }

    /// The monitors of `user_id`, newest first.
    pub fn list(&self, store: &MonitorStore, user_id: i64) -> (r: Vec<Monitor>)
        requires
            store.wf(),
        ensures
            r@ == store.monitors().filter(crate::store::monitor_of(user_id)).reverse(),
    {
        Monitor::list_by_user(store, user_id)
    }

    /// Changes monitor `id` of `user_id`, or `NotFound`.
    pub fn update(
        &self,
        store: &mut MonitorStore,
        id: i64,
        user_id: i64,
        changes: crate::model::UpdateMonitor,
    ) -> (r: Result<Monitor, AppError>)
        requires
            old(store).wf(),
        ensures
            final(store).wf(),
            match find_monitor(old(store).monitors(), id, user_id) {
                Some(m) => r == Ok::<Monitor, AppError>(crate::store::apply_changes(m, changes))
                    && final(store).monitors() == old(store).monitors().map_values(
                    |x: Monitor|
                        if x.id == id && x.user_id == user_id {
                            crate::store::apply_changes(x, changes)
                        } else {
                            x
                        },
                ),
                None => (r matches Err(AppError::NotFound) && final(store).monitors() == old(store).monitors()),
            },
    {
        match Monitor::update(store, id, user_id, changes) {
            Some(m) => Ok(m),
            None => Err(AppError::NotFound),
        }
    }

    /// Removes monitor `id` of `user_id`; whether there was one.
    pub fn delete(&self, store: &mut MonitorStore, id: i64, user_id: i64) -> (r: bool)
        requires
            old(store).wf(),
        ensures
            final(store).wf(),
            r == find_monitor(old(store).monitors(), id, user_id).is_some(),
            r ==> final(store).monitors() == old(store).monitors().filter(
                crate::store::monitor_other_than(id),
            ),
            !r ==> final(store).monitors() == old(store).monitors(),
    {
        Monitor::delete(store, id, user_id)
    }

    /// The probe to run for monitor `id` of `user_id`, or `NotFound`.
    pub fn plan_check(&self, store: &MonitorStore, id: i64, user_id: i64) -> (r: Result<
        ProbePlan,
        AppError,
    >)
        requires
            store.wf(),
        ensures
            match find_monitor(store.monitors(), id, user_id) {
                Some(m) => r matches Ok(p) && plans(p, m),
                None => r matches Err(AppError::NotFound),
            },
    {
        let m = match Monitor::find_by_id(store, id, user_id) {
            Some(m) => m,
            None => return Err(AppError::NotFound),
        };
        let kind = m.type_.as_str();
        if str_eq(kind, "http") || str_eq(kind, "https") {
            let t: u64 = if m.timeout <= 0 { 0 } else { m.timeout as u64 };
            Ok(ProbePlan::Http { url: m.url, timeout_secs: t })
        } else if str_eq(kind, "ping") {
            let t: u64 = if m.timeout <= 0 { 0 } else { m.timeout as u64 };
            Ok(ProbePlan::Ping { host: ping_host(m.url.as_str()), timeout_secs: t })
        } else {
            Ok(ProbePlan::Unsupported)
        }
    }

    /// Records the result of a probe of monitor `id` of `user_id` that took
    /// `latency_ms`: `Up` on success, `Down` with the failure's text
    /// otherwise, and one heartbeat either way. A probe failure is data,
    /// not an error of this call; `NotFound` when the monitor is absent or
    /// belongs to another owner.
    pub fn check_status(
        &self,
        store: &mut MonitorStore,
        id: i64,
        user_id: i64,
        result: Result<(), AppError>,
        latency_ms: i32,
        now: i64,
    ) -> (r: Result<(), AppError>)
        requires
            old(store).wf(),
        ensures
            final(store).wf(),
            find_monitor(old(store).monitors(), id, user_id).is_some() ==> r is Ok
                && final(store).monitors() == record_status(
                old(store).monitors(),
                id,
                recorded_as(result).0,
                now,
            ) && final(store).heartbeats().len() == old(store).heartbeats().len() + 1
                && final(store).heartbeats().last().monitor_id == id
                && final(store).heartbeats().last().status == recorded_as(result).0
                && final(store).heartbeats().last().ping == Some(latency_ms)
                && final(store).heartbeats().last().time == now
                && final(store).heartbeats().drop_last() == old(store).heartbeats()
                && match recorded_as(result).1 {
                Some(t) => final(store).heartbeats().last().message matches Some(msg) && msg@ == t,
                None => final(store).heartbeats().last().message.is_none(),
            },
            find_monitor(old(store).monitors(), id, user_id).is_none() ==> (r matches Err(
                AppError::NotFound,
            ) && final(store).monitors() == old(store).monitors() && final(store).heartbeats()
                == old(store).heartbeats()),
    {
        if Monitor::find_by_id(store, id, user_id).is_none() {
            return Err(AppError::NotFound);
        }
        let (status, message) = match &result {
            Ok(_) => (MonitorStatus::Up, None),
            Err(e) => (MonitorStatus::Down, Some(e.message())),
        };
        let ghost before = store.heartbeats();
        let recorded = Monitor::update_status(store, id, status, Some(latency_ms), message, now);
        proof {
            let k = choose|k: int|
                0 <= k < old(store).monitors().len() && old(store).monitors()[k].id == id
                    && old(store).monitors()[k].user_id == user_id;
            assert(old(store).monitors()[k].id == id);
            assert(store.heartbeats().drop_last() == before);
        }
        recorded
    }
}

} // verus!
