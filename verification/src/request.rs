//! The data of the Alpaca HTTP requests, and the routes that the request
//! handlers answer on.
use vstd::prelude::*;
use vstd::string::*;
use crate::enums::{Axis, GuideDirection, PierSide};

verus! {

broadcast use vstd::string::group_string_axioms;

/// A request with no data of its own.
#[derive(Debug, Clone, Copy, PartialEq, Eq, Structural)]
pub struct EmptyData {
    pub client_id: u32,
    pub client_transaction_id: u32,
}

/// A request to run an action of the driver.
#[derive(Debug, Clone)]
pub struct ActionData {
    pub action: String,
    pub parameters: String,
    pub client_id: u32,
    pub client_transaction_id: u32,
}

/// A request to send a raw command to the mount.
#[derive(Debug, Clone)]
pub struct CommandData {
    pub command: String,
    pub raw: bool,
    pub client_id: u32,
    pub client_transaction_id: u32,
}

/// A request to connect or disconnect.
#[derive(Debug, Clone, Copy, PartialEq, Eq, Structural)]
pub struct SetConnectedData {
    pub connected: bool,
    pub client_id: u32,
    pub client_transaction_id: u32,
}

/// A request to apply refraction or not.
#[derive(Debug, Clone, Copy, PartialEq, Eq, Structural)]
pub struct DoesRefractionData {
    pub does_refraction: bool,
    pub client_id: u32,
    pub client_transaction_id: u32,
}

/// A request to set the side of the pier.
#[derive(Debug, Clone, Copy, PartialEq, Eq, Structural)]
pub struct SideOfPierData {
    pub side_of_pier: PierSide,
    pub client_id: u32,
    pub client_transaction_id: u32,
}

/// A request to set the slew settle time, in seconds.
#[derive(Debug, Clone, Copy, PartialEq, Eq, Structural)]
pub struct SlewSettleTimeData {
    pub slew_settle_time: i32,
    pub client_id: u32,
    pub client_transaction_id: u32,
}

/// A request to switch tracking on or off.
#[derive(Debug, Clone, Copy, PartialEq, Eq, Structural)]
pub struct TrackingData {
    pub tracking: bool,
    pub client_id: u32,
    pub client_transaction_id: u32,
}

/// A request to set the tracking rate, by its ASCOM number.
#[derive(Debug, Clone, Copy, PartialEq, Eq, Structural)]
pub struct TrackingRateData {
    pub tracking_rate: i32,
    pub client_id: u32,
    pub client_transaction_id: u32,
}

/// A request to set the UTC date, as text.
#[derive(Debug, Clone)]
pub struct UTCDateData {
    pub utc_date_string: String,
    pub client_id: u32,
    pub client_transaction_id: u32,
}

/// A request about an axis.
#[derive(Debug, Clone, Copy, PartialEq, Eq, Structural)]
pub struct AxisData {
    pub axis: Axis,
    pub client_id: u32,
    pub client_transaction_id: u32,
}

/// A request for a guide pulse: its direction and length in milliseconds.
#[derive(Debug, Clone, Copy, PartialEq, Eq, Structural)]
pub struct PulseGuideData {
    pub direction: GuideDirection,
    pub duration: u32,
    pub client_id: u32,
    pub client_transaction_id: u32,
}

/// The HTTP method of a request handler.
#[derive(Debug, Clone, Copy, PartialEq, Eq, Structural)]
pub enum HttpMethod {
    Get,
    Put,
}

/// The route of a request handler: its method and its path.
#[derive(Debug, Clone)]
pub struct HandlerRoute {
    pub method: HttpMethod,
    pub path: String,
}

/// The index of the first `_` in a text, if any.
pub open spec fn spec_first_underscore(s: Seq<char>) -> Option<int> {
    if exists|i: int| 0 <= i < s.len() && s[i] == '_' {
        Some(choose|i: int| 0 <= i < s.len() && s[i] == '_' && forall|j: int| 0 <= j < i ==> s[j] != '_')
    } else {
        None
    }
}

/// The text without its `_` characters.
pub open spec fn spec_without_underscores(s: Seq<char>) -> Seq<char> {
    s.filter(|c: char| c != '_')
}

/// The route of a handler named `get_<name>` or `put_<name>`: a GET route on
/// `/<name without underscores>?<_data..>` or a PUT route on
/// `/<name without underscores>`. Other names have no route.
pub open spec fn spec_handler_route(fn_name: Seq<char>) -> Option<(HttpMethod, Seq<char>)> {
    match spec_first_underscore(fn_name) {
        None => None,
        Some(i) => {
            let kind = fn_name.subrange(0, i);
            let rest = spec_without_underscores(fn_name.subrange(i + 1, fn_name.len() as int));
            if kind == "get"@ {
                Some((HttpMethod::Get, "/"@ + rest + "?<_data..>"@))
            } else if kind == "put"@ {
                Some((HttpMethod::Put, "/"@ + rest))
            } else {
                None
            }
        },
    }
}

/// The route that the handler with the given name answers on, if its name
/// gives one.
pub fn handler_route(fn_name: &str) -> (r: Option<HandlerRoute>)
    ensures
        spec_handler_route(fn_name@) is None ==> r is None,
        spec_handler_route(fn_name@) matches Some((m, p)) ==> (r matches Some(hr) && hr.method == m
            && hr.path@ == p),
{
    let n = fn_name.unicode_len();
    let mut i: usize = 0;
    let mut found = false;
    while i < n && !found
        invariant
            n == fn_name@.len(),
            0 <= i <= n,
            forall|j: int| 0 <= j < i ==> fn_name@[j] != '_',
            found ==> i < n && fn_name@[i as int] == '_',
        decreases n - i + (if found { 0int } else { 1int }),
    {
        if fn_name.get_char(i) == '_' {
            found = true;
        } else {
            i = i + 1;
        }
    }
    if !found {
        assert(!(exists|k: int| 0 <= k < fn_name@.len() && fn_name@[k] == '_'));
        return None;
    }
    proof {
        assert(fn_name@[i as int] == '_');
        let c = choose|k: int| 0 <= k < fn_name@.len() && fn_name@[k] == '_' && forall|j: int| 0 <= j < k ==> fn_name@[j] != '_';
        assert(0 <= c < fn_name@.len() && fn_name@[c] == '_' && forall|j: int| 0 <= j < c ==> fn_name@[j] != '_');
        if c < i {
        } else if c > i {
            assert(fn_name@[i as int] != '_');
        }
        assert(c == i);
    }
    let kind = fn_name.substring_char(0, i);
    let mut rest = String::new();
    let mut k: usize = i + 1;
    let ghost tail = fn_name@.subrange(i + 1, fn_name@.len() as int);
    while k < n
        invariant
            n == fn_name@.len(),
            i < n,
            i + 1 <= k <= n,
            tail == fn_name@.subrange(i + 1, n as int),
            rest@ == spec_without_underscores(tail.subrange(0, k - (i + 1))),
        decreases n - k,
    {
        let c = fn_name.get_char(k);
        proof {
            let pre = tail.subrange(0, k - (i + 1));
            let next = tail.subrange(0, k + 1 - (i + 1));
            assert(next =~= pre.push(c));
            assert(next.drop_last() =~= pre);
            reveal(Seq::filter);
        }
        if c != '_' {
            let mut one = String::new();
            one.append(fn_name.substring_char(k, k + 1));
            proof {
                assert(fn_name@.subrange(k as int, k + 1) =~= seq![c]);
            }
            rest.append(one.as_str());
        }
        k = k + 1;
    }
    proof {
        assert(tail.subrange(0, n - (i + 1)) =~= tail);
    }
    if str_eq_get(kind) {
        let mut path = String::from_str("/");
        path.append(rest.as_str());
        path.append("?<_data..>");
        Some(HandlerRoute { method: HttpMethod::Get, path })
    } else if str_eq_put(kind) {
        let mut path = String::from_str("/");
        path.append(rest.as_str());
        Some(HandlerRoute { method: HttpMethod::Put, path })
    } else {
        None
    }
}

fn str_eq_get(s: &str) -> (b: bool)
    ensures
        b == (s@ == "get"@),
{
    crate::text::str_eq(s, "get")
}

fn str_eq_put(s: &str) -> (b: bool)
    ensures
        b == (s@ == "put"@),
{
    crate::text::str_eq(s, "put")
}

} // verus!
