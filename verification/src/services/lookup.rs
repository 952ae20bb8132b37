use vstd::prelude::*;
use crate::ip::{spec_is_special, IpAddress};
use crate::ip_parse::{chars_of, parse_ip_text, spec_parse_ip};
use crate::maxmind_db::{shape_records, MaxmindDBInner};
use crate::models::LookupResponseModel;
use crate::network_utils::SpecialIPCheck;

verus! {

/// The most addresses one request may carry.
pub const MAX_BATCH: usize = 50;

/// The result shape a lookup may ask for.
#[derive(Clone, Copy, PartialEq, Eq, Structural, Debug)]
pub enum LookupKind {
    AnonymousIp,
    Asn,
    City,
    ConnectionType,
    Country,
    DensityIncome,
    Enterprise,
    Isp,
}

/// The tag under which each shape is requested.
pub open spec fn spec_parse_kind(s: Seq<char>) -> Option<LookupKind> {
    if s == "anonymous_ip"@ {
        Some(LookupKind::AnonymousIp)
    } else if s == "asn"@ {
        Some(LookupKind::Asn)
    } else if s == "city"@ {
        Some(LookupKind::City)
    } else if s == "connection_type"@ {
        Some(LookupKind::ConnectionType)
    } else if s == "country"@ {
        Some(LookupKind::Country)
    } else if s == "density_income"@ {
        Some(LookupKind::DensityIncome)
    } else if s == "enterprise"@ {
        Some(LookupKind::Enterprise)
    } else if s == "isp"@ {
        Some(LookupKind::Isp)
    } else {
        None
    }
}

/// The comma-separated pieces of a string; an empty string is one empty
/// piece.
pub open spec fn split_commas(s: Seq<char>) -> Seq<Seq<char>> {
    crate::text::split_on(s, ',')
}

/// Split a string on commas.
pub fn split_commas_exec(s: &str) -> (toks: Vec<String>)
    ensures
        toks@.map_values(|t: String| t@) == split_commas(s@),
{
    crate::text::split_on_exec(s, ',')
}

} // verus!

verus! {

/// Whether a character sequence equals the view of a literal.
fn str_eq_chars(cs: &Vec<char>, lit: &str) -> (b: bool)
    ensures
        b == (cs@ == lit@),
{
    let n = lit.unicode_len();
    if cs.len() != n {
        return false;
    }
    let mut i: usize = 0;
    while i < n
        invariant
            i <= n,
            n == lit@.len() == cs@.len(),
            forall|k: int| 0 <= k < i ==> cs@[k] == lit@[k],
        decreases n - i,
    {
        if cs[i] != lit.get_char(i) {
            return false;
        }
        i = i + 1;
    }
    proof {
        assert(cs@ =~= lit@);
    }
    true
}

/// Parse a lookup-type tag.
pub fn parse_kind(s: &str) -> (r: Option<LookupKind>)
    ensures
        r == spec_parse_kind(s@),
{
    let cs = chars_of(s);
    if str_eq_chars(&cs, "anonymous_ip") {
        Some(LookupKind::AnonymousIp)
    } else if str_eq_chars(&cs, "asn") {
        Some(LookupKind::Asn)
    } else if str_eq_chars(&cs, "city") {
        Some(LookupKind::City)
    } else if str_eq_chars(&cs, "connection_type") {
        Some(LookupKind::ConnectionType)
    } else if str_eq_chars(&cs, "country") {
        Some(LookupKind::Country)
    } else if str_eq_chars(&cs, "density_income") {
        Some(LookupKind::DensityIncome)
    } else if str_eq_chars(&cs, "enterprise") {
        Some(LookupKind::Enterprise)
    } else if str_eq_chars(&cs, "isp") {
        Some(LookupKind::Isp)
    } else {
        None
    }
}

/// Why a request was refused, each with the offending token where one
/// exists.
#[derive(Debug)]
pub enum RequestError {
    InvalidIp(String),
    TooManyIps,
    SpecialIp(String),
    InvalidLookupType,
}

impl RequestError {
    /// The stable machine-readable code of each refusal.
    pub open spec fn spec_code(self) -> Seq<char> {
        match self {
            RequestError::InvalidIp(_) => "INVALID_IP"@,
            RequestError::TooManyIps => "TOO_MANY_IPS"@,
            RequestError::SpecialIp(_) => "SPECIAL_IP"@,
            RequestError::InvalidLookupType => "INVALID_LOOKUP_TYPE"@,
        }
    }

    pub fn code(&self) -> (c: String)
        ensures
            c@ == self.spec_code(),
    {
        match self {
            RequestError::InvalidIp(_) => "INVALID_IP".to_owned(),
            RequestError::TooManyIps => "TOO_MANY_IPS".to_owned(),
            RequestError::SpecialIp(_) => "SPECIAL_IP".to_owned(),
            RequestError::InvalidLookupType => "INVALID_LOOKUP_TYPE".to_owned(),
        }
    }

    /// The human-readable message of each refusal.
    pub open spec fn spec_message(self) -> Seq<char> {
        match self {
            RequestError::InvalidIp(t) => "Invalid IP Address \""@ + t@ + "\""@,
            RequestError::TooManyIps => "Too many IP Addresses"@,
            RequestError::SpecialIp(t) =>
                "IP Address is part of a special list and not allowed: "@ + t@,
            RequestError::InvalidLookupType => "invalid lookup_type"@,
        }
    }

    pub fn message(&self) -> (m: String)
        ensures
            m@ == self.spec_message(),
    {
        match self {
            RequestError::InvalidIp(t) => {
                let mut m = "Invalid IP Address \"".to_owned();
                m.append(t.as_str());
                m.append("\"");
                m
            },
            RequestError::TooManyIps => "Too many IP Addresses".to_owned(),
            RequestError::SpecialIp(t) => {
                let mut m = "IP Address is part of a special list and not allowed: ".to_owned();
                m.append(t.as_str());
                m
            },
            RequestError::InvalidLookupType => "invalid lookup_type".to_owned(),
        }
    }
}

/// The first token that does not parse as an address stands at `i`.
pub open spec fn first_invalid_at(toks: Seq<Seq<char>>, i: int) -> bool {
    &&& 0 <= i < toks.len()
    &&& spec_parse_ip(toks[i]) is None
    &&& forall|j: int| 0 <= j < i ==> spec_parse_ip(#[trigger] toks[j]) is Some
}

/// Every token parses as an address.
pub open spec fn all_parse(toks: Seq<Seq<char>>) -> bool {
    forall|j: int| 0 <= j < toks.len() ==> spec_parse_ip(#[trigger] toks[j]) is Some
}

/// The first token naming a special address stands at `i`.
pub open spec fn first_special_at(toks: Seq<Seq<char>>, i: int) -> bool {
    &&& 0 <= i < toks.len()
    &&& spec_parse_ip(toks[i]) is Some
    &&& spec_is_special(spec_parse_ip(toks[i])->0)
    &&& forall|j: int| 0 <= j < i ==> !spec_is_special(spec_parse_ip(#[trigger] toks[j])->0)
}

/// No token names a special address.
pub open spec fn none_special(toks: Seq<Seq<char>>) -> bool {
    forall|j: int| 0 <= j < toks.len() ==> !spec_is_special(spec_parse_ip(#[trigger] toks[j])->0)
}

/// Exactly when each refusal is returned, over the split token list: an
/// unparsable token first, then an oversized batch, then a special
/// address, then an unknown shape tag.
pub open spec fn spec_validation_error(
    lookup_type: Seq<char>,
    toks: Seq<Seq<char>>,
    e: RequestError,
) -> bool {
    match e {
        RequestError::InvalidIp(t) => exists|i: int|
            #[trigger] first_invalid_at(toks, i) && t@ == toks[i],
        RequestError::TooManyIps => all_parse(toks) && toks.len() > MAX_BATCH,
        RequestError::SpecialIp(t) => {
            &&& all_parse(toks)
            &&& toks.len() <= MAX_BATCH
            &&& exists|i: int| #[trigger] first_special_at(toks, i) && t@ == toks[i]
        },
        RequestError::InvalidLookupType => {
            &&& all_parse(toks)
            &&& toks.len() <= MAX_BATCH
            &&& none_special(toks)
            &&& spec_parse_kind(lookup_type) is None
        },
    }
}

/// Validate one lookup request: parse the comma-separated address list,
/// bound the batch, refuse special addresses, and resolve the requested
/// shape. Each check short-circuits in this order, and none of them touches
/// the database.
pub fn validate_request(lookup_type: &str, ip_addresses: &str) -> (r: Result<
    (LookupKind, Vec<IpAddress>),
    RequestError,
>)
    ensures
        ({
            let toks = split_commas(ip_addresses@);
            match r {
                Ok((kind, ips)) => {
                    &&& spec_parse_kind(lookup_type@) == Some(kind)
                    &&& all_parse(toks)
                    &&& toks.len() <= MAX_BATCH
                    &&& none_special(toks)
                    &&& ips@.len() == toks.len()
                    &&& forall|k: int|
                        0 <= k < toks.len() ==> Some(#[trigger] ips@[k]) == spec_parse_ip(toks[k])
                },
                Err(e) => spec_validation_error(lookup_type@, toks, e),
            }
        }),
{
    let toks = split_commas_exec(ip_addresses);
    let ghost toksv = split_commas(ip_addresses@);
    let mut ips: Vec<IpAddress> = Vec::new();
    let mut i: usize = 0;
    while i < toks.len()
        invariant
            i <= toks@.len(),
            toksv == split_commas(ip_addresses@),
            toksv == toks@.map_values(|t: String| t@),
            ips@.len() == i,
            forall|k: int| 0 <= k < i ==> spec_parse_ip(#[trigger] toksv[k]) is Some,
            forall|k: int| 0 <= k < i ==> Some(#[trigger] ips@[k]) == spec_parse_ip(toksv[k]),
        decreases toks@.len() - i,
    {
        match parse_ip_text(toks[i].as_str()) {
            Some(ip) => {
                ips.push(ip);
            },
            None => {
                proof {
                    assert(toksv[i as int] == toks@[i as int]@);
                    assert(first_invalid_at(toksv, i as int));
                }
                let t = toks[i].clone();
                proof {
                    assert(t@ == toksv[i as int]);
                    assert(exists|x: int| #[trigger] first_invalid_at(toksv, x) && t@ == toksv[x]);
                }
                return Err(RequestError::InvalidIp(t));
            },
        }
        i = i + 1;
    }
    if ips.len() > MAX_BATCH {
        return Err(RequestError::TooManyIps);
    }
    let mut k: usize = 0;
    while k < ips.len()
        invariant
            k <= ips@.len(),
            ips@.len() == toks@.len(),
            ips@.len() <= MAX_BATCH,
            toksv == split_commas(ip_addresses@),
            toksv == toks@.map_values(|t: String| t@),
            forall|j: int| 0 <= j < toksv.len() ==> spec_parse_ip(#[trigger] toksv[j]) is Some,
            forall|j: int| 0 <= j < toksv.len() ==> Some(#[trigger] ips@[j]) == spec_parse_ip(
                toksv[j],
            ),
            forall|j: int| 0 <= j < k ==> !spec_is_special(spec_parse_ip(#[trigger] toksv[j])->0),
        decreases ips@.len() - k,
    {
        if ips[k].is_special_ip() {
            proof {
                assert(toksv[k as int] == toks@[k as int]@);
                assert(first_special_at(toksv, k as int));
            }
            let t = toks[k].clone();
            proof {
                assert(t@ == toksv[k as int]);
                assert(exists|x: int| #[trigger] first_special_at(toksv, x) && t@ == toksv[x]);
            }
            return Err(RequestError::SpecialIp(t));
        }
        k = k + 1;
    }
    match parse_kind(lookup_type) {
        Some(kind) => Ok((kind, ips)),
        None => Err(RequestError::InvalidLookupType),
    }
}

} // verus!

verus! {

/// Wrap one validated batch into the response envelope: the per-address
/// mapping, and the build epoch of the database instance that served it.
pub fn lookup_response(db: &MaxmindDBInner, kind: &LookupKind, ip_addresses: &Vec<IpAddress>) -> (r:
    LookupResponseModel)
    ensures
        r.database_build_epoch == db.spec_epoch(),
        r.results@.len() == ip_addresses@.len(),
        forall|i: int|
            0 <= i < r.results@.len() ==> (#[trigger] r.results@[i]).0 == ip_addresses@[i],
        forall|i: int|
            0 <= i < r.results@.len() ==> ((#[trigger] r.results@[i]).1 is Some <==> shape_records(
                *db,
                *kind,
            ).dom().contains(ip_addresses@[i].key())),
        forall|i: int|
            0 <= i < r.results@.len() ==> ((#[trigger] r.results@[i]).1 is Some ==> r.results@[i].1
                ->0 == shape_records(*db, *kind)[ip_addresses@[i].key()]),
{
    LookupResponseModel {
        results: db.lookup(kind, ip_addresses),
        database_build_epoch: db.build_epoch(),
    }
}

} // verus!

verus! {

/// Serve one request end to end, as the dispatcher does: validate the
/// batch, and only on success consult the database, one decode per
/// address. A refused request reports its cause and touches no data.
pub fn handle_lookup(db: &MaxmindDBInner, lookup_type: &str, ip_addresses: &str) -> (r: Result<
    LookupResponseModel,
    RequestError,
>)
    ensures
        ({
            let toks = split_commas(ip_addresses@);
            match r {
                Ok(resp) => {
                    &&& spec_parse_kind(lookup_type@) is Some
                    &&& all_parse(toks)
                    &&& toks.len() <= MAX_BATCH
                    &&& none_special(toks)
                    &&& resp.database_build_epoch == db.spec_epoch()
                    &&& resp.results@.len() == toks.len()
                    &&& forall|i: int|
                        0 <= i < toks.len() ==> Some((#[trigger] resp.results@[i]).0)
                            == spec_parse_ip(toks[i])
                    &&& forall|i: int|
                        0 <= i < toks.len() ==> ((#[trigger] resp.results@[i]).1 is Some
                            <==> shape_records(*db, spec_parse_kind(lookup_type@)->0).dom()
                            .contains(spec_parse_ip(toks[i])->0.key()))
                    &&& forall|i: int|
                        0 <= i < toks.len() ==> ((#[trigger] resp.results@[i]).1 is Some
                            ==> resp.results@[i].1->0 == shape_records(
                            *db,
                            spec_parse_kind(lookup_type@)->0,
                        )[spec_parse_ip(toks[i])->0.key()])
                },
                Err(e) => spec_validation_error(lookup_type@, toks, e),
            }
        }),
{
    let (kind, ips) = match validate_request(lookup_type, ip_addresses) {
        Ok(validated) => validated,
        Err(e) => {
            return Err(e);
        },
    };
    Ok(lookup_response(db, &kind, &ips))
}

} // verus!
