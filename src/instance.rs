use vstd::prelude::*;

use crate::error::EzError;

verus! {

/// The metadata key under which the instance publishes its port.
pub open spec fn grpc_port_key() -> Seq<char> {
    "gRPC_port"@
}

/// The index of the last `:` in `s`, or `-1` where there is none.
pub open spec fn last_colon(s: Seq<char>) -> int
    decreases s.len(),
{
    if s.len() == 0 {
        -1
    } else if s.last() == ':' {
        s.len() - 1
    } else {
        last_colon(s.drop_last())
    }
}

/// What follows the last `:` of a `host:port` address.
pub open spec fn port_text_spec(s: Seq<char>) -> Option<Seq<char>> {
    let k = last_colon(s);
    if k < 0 {
        None
    } else {
        Some(s.subrange(k + 1, s.len() as int))
    }
}

pub open spec fn is_digit(c: char) -> bool {
    '0' <= c && c <= '9'
}

pub open spec fn all_digits(t: Seq<char>) -> bool {
    forall|i: int| 0 <= i < t.len() ==> is_digit(#[trigger] t[i])
}

/// The number that a string of decimal digits writes.
pub open spec fn digits_value(t: Seq<char>) -> int
    decreases t.len(),
{
    if t.len() == 0 {
        0
    } else {
        digits_value(t.drop_last()) * 10 + (t.last() as int - '0' as int)
    }
}

/// A port written in decimal: one or more digits, at most 65535.
pub open spec fn port_spec(t: Seq<char>) -> Option<u16> {
    if t.len() > 0 && all_digits(t) && digits_value(t) <= 65535 {
        Some(digits_value(t) as u16)
    } else {
        None
    }
}

proof fn lemma_last_colon(s: Seq<char>, k: int)
    requires
        -1 <= k < s.len(),
        k >= 0 ==> s[k] == ':',
        forall|j: int| k < j < s.len() ==> s[j] != ':',
    ensures
        last_colon(s) == k,
    decreases s.len(),
{
    if s.len() > 0 && s.last() != ':' {
        lemma_last_colon(s.drop_last(), k);
    }
}

proof fn lemma_digits_value_grows(t: Seq<char>, i: int, j: int)
    requires
        0 <= i <= j <= t.len(),
        all_digits(t),
    ensures
        0 <= digits_value(t.subrange(0, i)) <= digits_value(t.subrange(0, j)),
    decreases j,
{
    if j > 0 {
        let p = t.subrange(0, j);
        assert(p.drop_last() =~= t.subrange(0, j - 1));
        assert(is_digit(t[j - 1]));
        if i < j {
            lemma_digits_value_grows(t, i, j - 1);
        } else {
            lemma_digits_value_grows(t, j - 1, j - 1);
        }
    } else {
        assert(t.subrange(0, 0).len() == 0);
    }
}

/// The text after the last `:` of `addr`, if it has one.
pub fn port_text(addr: &str) -> (r: Option<String>)
    ensures
        r.deep_view() == port_text_spec(addr@),
{
    let n = addr.unicode_len();
    let mut i: usize = n;
    while i > 0
        invariant
            i <= n,
            n == addr@.len(),
            forall|j: int| i <= j < n ==> addr@[j] != ':',
        decreases i,
    {
        if addr.get_char(i - 1) == ':' {
            proof {
                lemma_last_colon(addr@, i - 1);
            }
            let tail = addr.substring_char(i, n);
            return Some(String::from_str(tail));
        }
        i = i - 1;
    }
    proof {
        lemma_last_colon(addr@, -1);
    }
    None
}

/// Reads a port written in decimal digits.
pub fn parse_port(t: &str) -> (r: Option<u16>)
    ensures
        r == port_spec(t@),
{
    let n = t.unicode_len();
    if n == 0 {
        return None;
    }
    let mut i: usize = 0;
    while i < n
        invariant
            i <= n,
            n == t@.len(),
            forall|j: int| 0 <= j < i ==> is_digit(#[trigger] t@[j]),
        decreases n - i,
    {
        let c = t.get_char(i);
        if !('0' <= c && c <= '9') {
            return None;
        }
        i = i + 1;
    }
    let mut value: u32 = 0;
    let mut i: usize = 0;
    while i < n
        invariant
            i <= n,
            n == t@.len(),
            all_digits(t@),
            value == digits_value(t@.subrange(0, i as int)),
            value <= 65535,
        decreases n - i,
    {
        let c = t.get_char(i);
        let d = (c as u32) - ('0' as u32);
        assert(t@.subrange(0, i + 1).drop_last() =~= t@.subrange(0, i as int));
        value = value * 10 + d;
        if value > 65535 {
            proof {
                lemma_digits_value_grows(t@, i + 1, n as int);
                assert(t@.subrange(0, n as int) =~= t@);
            }
            return None;
        }
        i = i + 1;
    }
    assert(t@.subrange(0, n as int) =~= t@);
    Some(value as u16)
}

/// The descriptor of one instance as it is published to the registry.
pub struct ServiceInstance {
    pub ip: String,
    pub port: u16,
    /// Relative weight; the registry receives it as a floating-point number.
    pub weight: u32,
    pub healthy: bool,
    pub enabled: bool,
    pub ephemeral: bool,
    /// Key / value annotations; no key occurs twice.
    pub metadata: Vec<(String, String)>,
}

impl ServiceInstance {
    pub open spec fn wf(&self) -> bool {
        forall|i: int, j: int|
            0 <= i < j < self.metadata@.len() ==> #[trigger] self.metadata@[i].0@
                != #[trigger] self.metadata@[j].0@
    }

    /// The instance that publishes `ip` and the port written `text`, whose
    /// value is `port`.
    pub open spec fn publishes(&self, ip: String, text: Seq<char>, port: u16) -> bool {
        &&& self.ip == ip
        &&& self.port == port
        &&& self.weight == 1
        &&& self.healthy
        &&& self.enabled
        &&& self.ephemeral
        &&& self.metadata@.len() == 1
        &&& self.metadata@[0].0@ == grpc_port_key()
        &&& self.metadata@[0].1@ == text
    }

    /// The value stored under `key`, if there is one.
    pub fn metadata_value(&self, key: &str) -> (r: Option<String>)
        requires
            self.wf(),
        ensures
            r is None <==> forall|i: int|
                0 <= i < self.metadata@.len() ==> #[trigger] self.metadata@[i].0@ != key@,
            r is Some ==> exists|i: int|
                0 <= i < self.metadata@.len() && #[trigger] self.metadata@[i].0@ == key@
                    && self.metadata@[i].1 == r->0,
    {
        let k = String::from_str(key);
        let mut i: usize = 0;
        while i < self.metadata.len()
            invariant
                i <= self.metadata@.len(),
                k@ == key@,
                forall|j: int| 0 <= j < i ==> #[trigger] self.metadata@[j].0@ != key@,
            decreases self.metadata@.len() - i,
        {
            if self.metadata[i].0 == k {
                return Some(self.metadata[i].1.clone());
            }
            i = i + 1;
        }
        None
    }
}

/// What building an instance for `addr` yields: `Configuration` where `addr`
/// has no port after its last `:` or the port is not a decimal number in
/// `0..=65535`.
pub open spec fn builds(addr: Seq<char>, ip: String, r: Result<ServiceInstance, EzError>) -> bool {
    match port_text_spec(addr) {
        Some(text) if port_spec(text) is Some => r matches Ok(inst) && inst.wf() && inst.publishes(
            ip,
            text,
            port_spec(text)->0,
        ),
        _ => r matches Err(EzError::Configuration(m)) && m@ == addr,
    }
}

/// Builds the instance that publishes `ip` and the port of `service_addr`,
/// healthy, enabled and ephemeral, with weight one and the port under
/// `gRPC_port` in its metadata.
pub fn build_instance(service_addr: &String, ip: String) -> (r: Result<ServiceInstance, EzError>)
    ensures
        builds(service_addr@, ip, r),
{
    let text = match port_text(service_addr.as_str()) {
        Some(t) => t,
        None => return Err(EzError::Configuration(service_addr.clone())),
    };
    let port = match parse_port(text.as_str()) {
        Some(p) => p,
        None => return Err(EzError::Configuration(service_addr.clone())),
    };
    let key = String::from_str("gRPC_port");
    let mut metadata: Vec<(String, String)> = Vec::new();
    metadata.push((key, text));
    Ok(
        ServiceInstance {
            ip,
            port,
            weight: 1,
            healthy: true,
            enabled: true,
            ephemeral: true,
            metadata,
        },
    )
}

} // verus!
