//! JSON text as the protocol reads and writes it.
//!
//! Parsing goes through serde_json; what the library reads from the result is
//! stated over the names below. Numbers are written by the library itself.
use serde_json::value::RawValue;
use std::collections::BTreeMap;
use vstd::prelude::*;
use vstd::string::StringExecFns;

verus! {

/// The members of the JSON object written in `s`, each kept as its JSON text;
/// `None` when `s` is not a JSON object.
pub uninterp spec fn json_object_of(s: Seq<char>) -> Option<Map<Seq<char>, Seq<char>>>;

/// The string that the JSON text `s` denotes, if it is a JSON string.
pub uninterp spec fn json_string_of(s: Seq<char>) -> Option<Seq<char>>;

/// The integer that the JSON text `s` denotes, if it is an integer that fits in an `i64`.
pub uninterp spec fn json_integer_of(s: Seq<char>) -> Option<int>;

/// The boolean that the JSON text `s` denotes, if it is `true` or `false`.
pub uninterp spec fn json_bool_of(s: Seq<char>) -> Option<bool>;

/// Whether the JSON text `s` is `null`.
pub uninterp spec fn json_null_of(s: Seq<char>) -> bool;

/// The JSON string literal (quoted and escaped) that denotes `s`.
pub uninterp spec fn json_quote_of(s: Seq<char>) -> Seq<char>;

/// `pairs` lists the members of `m`, each key once.
pub open spec fn members_match(pairs: Seq<(String, String)>, m: Map<Seq<char>, Seq<char>>) -> bool {
    &&& forall|i: int, j: int|
        0 <= i < pairs.len() && 0 <= j < pairs.len() && i != j ==> pairs[i].0@ != pairs[j].0@
    &&& forall|i: int| 0 <= i < pairs.len() ==> m.contains_key(#[trigger] pairs[i].0@) && m[pairs[i].0@]
        == pairs[i].1@
    &&& forall|k: Seq<char>| #[trigger] m.contains_key(k) ==> exists|i: int|
        0 <= i < pairs.len() && pairs[i].0@ == k
}

/// Relies on serde_json::from_str into a `BTreeMap<String, Box<RawValue>>`:
/// the members of a JSON object, each with the JSON text of its value.
#[verifier::external_body]
fn parse_members(text: &str) -> (r: Option<Vec<(String, String)>>)
    ensures
        r is Some <==> json_object_of(text@) is Some,
        r matches Some(v) ==> members_match(v@, json_object_of(text@)->0),
{
    let members: BTreeMap<String, Box<RawValue>> = serde_json::from_str(text).ok()?;
    Some(members.into_iter().map(|(k, v)| (k, v.get().to_owned())).collect())
}

/// Relies on serde_json::from_str::<String>: the string a JSON string literal denotes.
#[verifier::external_body]
fn parse_string(text: &str) -> (r: Option<String>)
    ensures
        r is Some <==> json_string_of(text@) is Some,
        r matches Some(s) ==> json_string_of(text@) == Some(s@),
{
    serde_json::from_str::<String>(text).ok()
}

/// Relies on serde_json::from_str::<i64>: the integer a JSON number denotes.
#[verifier::external_body]
fn parse_integer(text: &str) -> (r: Option<i64>)
    ensures
        r is Some <==> json_integer_of(text@) is Some,
        r matches Some(n) ==> json_integer_of(text@) == Some(n as int),
{
    serde_json::from_str::<i64>(text).ok()
}

/// Relies on serde_json::from_str::<bool>: the boolean a JSON literal denotes.
#[verifier::external_body]
fn parse_bool(text: &str) -> (r: Option<bool>)
    ensures
        r is Some <==> json_bool_of(text@) is Some,
        r matches Some(b) ==> json_bool_of(text@) == Some(b),
{
    serde_json::from_str::<bool>(text).ok()
}

/// Relies on serde_json::from_str::<()>: JSON `null` is what deserializes as the unit value.
#[verifier::external_body]
fn parse_null(text: &str) -> (r: bool)
    ensures
        r == json_null_of(text@),
{
    serde_json::from_str::<()>(text).is_ok()
}

/// Relies on serde_json's `Display` for `Value::String`: the compact JSON
/// string literal for `s`.
#[verifier::external_body]
fn quote(s: &str) -> (r: String)
    ensures
        r@ == json_quote_of(s@),
{
    serde_json::Value::String(s.to_owned()).to_string()
}

/// The JSON text of a member of `o`, if present.
pub open spec fn member_of(o: Map<Seq<char>, Seq<char>>, k: Seq<char>) -> Option<Seq<char>> {
    if o.contains_key(k) {
        Some(o[k])
    } else {
        None
    }
}

/// A required string member.
pub open spec fn string_member(o: Map<Seq<char>, Seq<char>>, k: Seq<char>) -> Option<Seq<char>> {
    match member_of(o, k) {
        Some(t) => json_string_of(t),
        None => None,
    }
}

/// An optional string member: absent or `null` gives `Some(None)`, a string
/// gives `Some(Some(..))`, anything else fails with `None`.
pub open spec fn opt_string_member(o: Map<Seq<char>, Seq<char>>, k: Seq<char>) -> Option<
    Option<Seq<char>>,
> {
    match member_of(o, k) {
        None => Some(None),
        Some(t) => if json_null_of(t) {
            Some(None)
        } else {
            match json_string_of(t) {
                Some(s) => Some(Some(s)),
                None => None,
            }
        },
    }
}

/// A required integer member that lies in `lo..=hi`.
pub open spec fn int_member(o: Map<Seq<char>, Seq<char>>, k: Seq<char>, lo: int, hi: int) -> Option<int> {
    match member_of(o, k) {
        Some(t) => match json_integer_of(t) {
            Some(n) => if lo <= n <= hi {
                Some(n)
            } else {
                None
            },
            None => None,
        },
        None => None,
    }
}

/// A required boolean member.
pub open spec fn bool_member(o: Map<Seq<char>, Seq<char>>, k: Seq<char>) -> Option<bool> {
    match member_of(o, k) {
        Some(t) => json_bool_of(t),
        None => None,
    }
}

/// An optional member of any JSON type, kept as text: absent or `null` gives `None`.
pub open spec fn raw_member(o: Map<Seq<char>, Seq<char>>, k: Seq<char>) -> Option<Seq<char>> {
    match member_of(o, k) {
        Some(t) => if json_null_of(t) {
            None
        } else {
            Some(t)
        },
        None => None,
    }
}

/// A JSON object, split into its members.
pub struct JsonObject {
    members: Vec<(String, String)>,
    model: Ghost<Map<Seq<char>, Seq<char>>>,
}

impl View for JsonObject {
    type V = Map<Seq<char>, Seq<char>>;

    closed spec fn view(&self) -> Map<Seq<char>, Seq<char>> {
        self.model@
    }
}

impl JsonObject {
    pub closed spec fn wf(&self) -> bool {
        members_match(self.members@, self.model@)
    }

    /// Parses `text` as a JSON object.
    pub fn parse(text: &str) -> (r: Option<JsonObject>)
        ensures
            r is Some <==> json_object_of(text@) is Some,
            r matches Some(o) ==> o.wf() && json_object_of(text@) == Some(o@),
    {
        match parse_members(text) {
            Some(members) => Some(JsonObject { members, model: Ghost(json_object_of(text@)->0) }),
            None => None,
        }
    }

    /// The JSON text of the member `key`, if present.
    pub fn member(&self, key: &str) -> (r: Option<&String>)
        requires
            self.wf(),
        ensures
            r is Some <==> self@.contains_key(key@),
            r matches Some(t) ==> t@ == self@[key@],
    {
        let k = key.to_owned();
        let mut i: usize = 0;
        while i < self.members.len()
            invariant
                self.wf(),
                k@ == key@,
                i <= self.members@.len(),
                forall|j: int| 0 <= j < i ==> self.members@[j].0@ != key@,
            decreases self.members@.len() - i,
        {
            if self.members[i].0 == k {
                return Some(&self.members[i].1);
            }
            i = i + 1;
        }
        None
    }

    /// A required string member.
    pub fn string_member(&self, key: &str) -> (r: Option<String>)
        requires
            self.wf(),
        ensures
            r is Some <==> string_member(self@, key@) is Some,
            r matches Some(s) ==> string_member(self@, key@) == Some(s@),
    {
        match self.member(key) {
            Some(t) => parse_string(t.as_str()),
            None => None,
        }
    }

    /// An optional string member: `Some(None)` when absent or `null`.
    pub fn opt_string_member(&self, key: &str) -> (r: Option<Option<String>>)
        requires
            self.wf(),
        ensures
            r is Some <==> opt_string_member(self@, key@) is Some,
            r matches Some(None) ==> opt_string_member(self@, key@) == Some(None::<Seq<char>>),
            r matches Some(Some(s)) ==> opt_string_member(self@, key@) == Some(Some(s@)),
    {
        match self.member(key) {
            None => Some(None),
            Some(t) => {
                if parse_null(t.as_str()) {
                    Some(None)
                } else {
                    match parse_string(t.as_str()) {
                        Some(s) => Some(Some(s)),
                        None => None,
                    }
                }
            },
        }
    }

    /// A required integer member that lies in `lo..=hi`.
    pub fn int_member(&self, key: &str, lo: i64, hi: i64) -> (r: Option<i64>)
        requires
            self.wf(),
        ensures
            r is Some <==> int_member(self@, key@, lo as int, hi as int) is Some,
            r matches Some(n) ==> int_member(self@, key@, lo as int, hi as int) == Some(n as int),
    {
        match self.member(key) {
            Some(t) => match parse_integer(t.as_str()) {
                Some(n) => if lo <= n && n <= hi {
                    Some(n)
                } else {
                    None
                },
                None => None,
            },
            None => None,
        }
    }

    /// A required boolean member.
    pub fn bool_member(&self, key: &str) -> (r: Option<bool>)
        requires
            self.wf(),
        ensures
            r == bool_member(self@, key@),
    {
        match self.member(key) {
            Some(t) => parse_bool(t.as_str()),
            None => None,
        }
    }

    /// An optional member of any JSON type, as text; `None` when absent or `null`.
    pub fn raw_member(&self, key: &str) -> (r: Option<String>)
        requires
            self.wf(),
        ensures
            r is Some <==> raw_member(self@, key@) is Some,
            r matches Some(t) ==> raw_member(self@, key@) == Some(t@),
    {
        match self.member(key) {
            Some(t) => if parse_null(t.as_str()) {
                None
            } else {
                Some(t.clone())
            },
            None => None,
        }
    }
}

/// The character of a decimal or hexadecimal digit.
pub open spec fn digit_char(d: nat) -> char {
    if d == 0 { '0' }
    else if d == 1 { '1' }
    else if d == 2 { '2' }
    else if d == 3 { '3' }
    else if d == 4 { '4' }
    else if d == 5 { '5' }
    else if d == 6 { '6' }
    else if d == 7 { '7' }
    else if d == 8 { '8' }
    else if d == 9 { '9' }
    else if d == 10 { 'a' }
    else if d == 11 { 'b' }
    else if d == 12 { 'c' }
    else if d == 13 { 'd' }
    else if d == 14 { 'e' }
    else { 'f' }
}

/// The decimal digits of `n`, without leading zeros.
pub open spec fn digits_of(n: nat) -> Seq<char>
    decreases n,
{
    if n < 10 {
        seq![digit_char(n)]
    } else {
        digits_of(n / 10).push(digit_char(n % 10))
    }
}

/// The decimal text of an integer, as JSON writes it.
pub open spec fn decimal_of(n: int) -> Seq<char> {
    if n < 0 {
        seq!['-'] + digits_of((-n) as nat)
    } else {
        digits_of(n as nat)
    }
}

/// The last `width` hexadecimal digits of `n`, lower case, zero padded.
pub open spec fn hex_of(n: nat, width: nat) -> Seq<char>
    decreases width,
{
    if width == 0 {
        Seq::empty()
    } else {
        hex_of(n / 16, (width - 1) as nat).push(digit_char(n % 16))
    }
}

fn digit_str(d: u64) -> (r: &'static str)
    requires
        d < 16,
    ensures
        r@ == seq![digit_char(d as nat)],
{
    proof {
        reveal_strlit("0");
        reveal_strlit("1");
        reveal_strlit("2");
        reveal_strlit("3");
        reveal_strlit("4");
        reveal_strlit("5");
        reveal_strlit("6");
        reveal_strlit("7");
        reveal_strlit("8");
        reveal_strlit("9");
        reveal_strlit("a");
        reveal_strlit("b");
        reveal_strlit("c");
        reveal_strlit("d");
        reveal_strlit("e");
        reveal_strlit("f");
    }
    let r = if d == 0 { "0" }
    else if d == 1 { "1" }
    else if d == 2 { "2" }
    else if d == 3 { "3" }
    else if d == 4 { "4" }
    else if d == 5 { "5" }
    else if d == 6 { "6" }
    else if d == 7 { "7" }
    else if d == 8 { "8" }
    else if d == 9 { "9" }
    else if d == 10 { "a" }
    else if d == 11 { "b" }
    else if d == 12 { "c" }
    else if d == 13 { "d" }
    else if d == 14 { "e" }
    else { "f" };
    assert(r@ =~= seq![digit_char(d as nat)]);
    r
}

/// Appends the decimal digits of `n`.
fn push_digits(out: &mut String, n: u64)
    ensures
        final(out)@ == old(out)@ + digits_of(n as nat),
    decreases n,
{
    if n >= 10 {
        push_digits(out, n / 10);
    }
    out.append(digit_str(n % 10));
    proof {
        assert(final(out)@ =~= old(out)@ + digits_of(n as nat));
    }
}

/// Appends the decimal text of `n`.
pub fn push_decimal(out: &mut String, n: i64)
    ensures
        final(out)@ == old(out)@ + decimal_of(n as int),
{
    if n < 0 {
        out.append("-");
        proof {
            reveal_strlit("-");
        }
        let m: u64 = if n == i64::MIN {
            9223372036854775808u64
        } else {
            (-n) as u64
        };
        push_digits(out, m);
        proof {
            assert(final(out)@ =~= old(out)@ + decimal_of(n as int));
        }
    } else {
        push_digits(out, n as u64);
    }
}

/// Appends the last `width` hexadecimal digits of `n`, zero padded.
pub fn push_hex(out: &mut String, n: u64, width: u64)
    ensures
        final(out)@ == old(out)@ + hex_of(n as nat, width as nat),
    decreases width,
{
    if width > 0 {
        push_hex(out, n / 16, width - 1);
        out.append(digit_str(n % 16));
        proof {
            assert(final(out)@ =~= old(out)@ + hex_of(n as nat, width as nat));
        }
    } else {
        proof {
            assert(final(out)@ =~= old(out)@ + hex_of(n as nat, width as nat));
        }
    }
}

/// Appends the JSON string literal for `s`.
pub fn push_quoted(out: &mut String, s: &str)
    ensures
        final(out)@ == old(out)@ + json_quote_of(s@),
{
    let q = quote(s);
    out.append(q.as_str());
}

} // verus!
