use vstd::prelude::*;

verus! {

/// The error of `serde_json`, carried and never looked into.
#[verifier::external_type_specification]
#[verifier::external_body]
pub struct ExJsonError(serde_json::Error);

/// The JSON string literal that stands for `text`, quotes and escapes
/// included.
pub uninterp spec fn json_quoted(text: Seq<char>) -> Seq<char>;

/// `serde_json::to_string` on a `str`.
///
/// Trusted: the call succeeds, and its result depends on `text` alone;
/// `json_quoted` is the name of that result. The call writes into memory, and
/// neither cause of failure that it knows (a value that refuses to be
/// written, a map whose keys are no strings) can arise with a `str`.
#[verifier::external_body]
fn quote(text: &str) -> (r: Result<String, serde_json::Error>)
    ensures
        r is Ok,
        r->Ok_0@ == json_quoted(text@),
{
    serde_json::to_string(text)
}

/// The character for a decimal digit.
pub open spec fn digit_char(d: nat) -> char {
    if d == 0 {
        '0'
    } else if d == 1 {
        '1'
    } else if d == 2 {
        '2'
    } else if d == 3 {
        '3'
    } else if d == 4 {
        '4'
    } else if d == 5 {
        '5'
    } else if d == 6 {
        '6'
    } else if d == 7 {
        '7'
    } else if d == 8 {
        '8'
    } else {
        '9'
    }
}

/// The decimal digits of `n`, most significant first; none for zero.
pub open spec fn digits(n: nat) -> Seq<char>
    decreases n,
{
    if n == 0 {
        Seq::empty()
    } else {
        digits(n / 10).push(digit_char(n % 10))
    }
}

/// `n` in decimal, without sign or leading zeros.
pub open spec fn decimal(n: nat) -> Seq<char> {
    if n == 0 {
        seq!['0']
    } else {
        digits(n)
    }
}

/// The digits `low`, which come least significant first, in reading order.
pub open spec fn reading_order(low: Seq<u8>) -> Seq<char> {
    Seq::new(low.len(), |i: int| digit_char(low[low.len() - 1 - i] as nat))
}

fn digit_str(d: u8) -> (r: &'static str)
    requires
        d < 10,
    ensures
        r@ == seq![digit_char(d as nat)],
{
    proof {
        reveal_strlit("0");
        reveal_strlit("1");
        reveal_strlit("2");
        reveal_strlit("3");
        reveal_strlit("4");
        reveal_strlit("5");
        reveal_strlit("6");
        reveal_strlit("7");
        reveal_strlit("8");
        reveal_strlit("9");
    }
    if d == 0 {
        "0"
    } else if d == 1 {
        "1"
    } else if d == 2 {
        "2"
    } else if d == 3 {
        "3"
    } else if d == 4 {
        "4"
    } else if d == 5 {
        "5"
    } else if d == 6 {
        "6"
    } else if d == 7 {
        "7"
    } else if d == 8 {
        "8"
    } else {
        "9"
    }
}

/// Writes `n` in decimal.
pub fn decimal_text(n: u128) -> (r: String)
    ensures
        r@ == decimal(n as nat),
{
    if n == 0 {
        proof {
            reveal_strlit("0");
        }
        return String::from_str("0");
    }
    let mut low: Vec<u8> = Vec::new();
    let mut rest: u128 = n;
    while rest > 0
        invariant
            digits(n as nat) == digits(rest as nat) + reading_order(low@),
            forall|i: int| 0 <= i < low@.len() ==> low@[i] < 10,
        decreases rest,
    {
        let d: u8 = (rest % 10) as u8;
        assert(digits(rest as nat / 10).push(digit_char(d as nat)) + reading_order(low@)
            =~= digits(rest as nat / 10) + reading_order(low@.push(d)));
        low.push(d);
        rest = rest / 10;
    }
    let mut out = String::new();
    let mut i: usize = low.len();
    while i > 0
        invariant
            i <= low@.len(),
            forall|j: int| 0 <= j < low@.len() ==> low@[j] < 10,
            out@ == reading_order(low@).subrange(0, low@.len() - i),
        decreases i,
    {
        i = i - 1;
        out.append(digit_str(low[i]));
    }
    assert(out@ =~= digits(n as nat));
    out
}

/// A JSON string for `text` where there is one, `null` where there is none.
pub open spec fn quoted_or_null(text: Option<Seq<char>>) -> Seq<char> {
    match text {
        Some(t) => json_quoted(t),
        None => "null"@,
    }
}

/// One member of an object: the name in quotes, a colon, the value. A
/// name is written as it stands, so it must need no escape.
pub open spec fn member(name: Seq<char>, value: Seq<char>) -> Seq<char> {
    "\""@ + name + "\":"@ + value
}

/// The members with a comma between each two.
pub open spec fn joined(members: Seq<Seq<char>>) -> Seq<char>
    decreases members.len(),
{
    if members.len() == 0 {
        Seq::empty()
    } else if members.len() == 1 {
        members.last()
    } else {
        joined(members.drop_last()) + ","@ + members.last()
    }
}

/// A JSON object of the members, in their order.
pub open spec fn object(members: Seq<Seq<char>>) -> Seq<char> {
    "{"@ + joined(members) + "}"@
}

/// Writes `text` as a JSON string.
pub fn quoted_text(text: &str) -> (r: String)
    ensures
        r@ == json_quoted(text@),
{
    match quote(text) {
        Ok(quoted) => quoted,
        Err(_) => vstd::pervasive::unreached(),
    }
}

/// Writes `text` as a JSON string, or `null` where there is none.
pub fn quoted_or_null_text(text: &Option<String>) -> (r: String)
    ensures
        r@ == quoted_or_null(text.deep_view()),
{
    match text {
        Some(t) => quoted_text(t.as_str()),
        None => String::from_str("null"),
    }
}

/// Writes one member of an object.
pub fn member_text(name: &str, value: &str) -> (r: String)
    ensures
        r@ == member(name@, value@),
{
    let mut out = String::from_str("\"");
    out.append(name);
    out.append("\":");
    out.append(value);
    out
}

/// Writes an object of the members, in their order.
pub fn object_text(members: &Vec<String>) -> (r: String)
    ensures
        r@ == object(members.deep_view()),
{
    let ghost all = members.deep_view();
    let mut out = String::from_str("{");
    let mut i: usize = 0;
    while i < members.len()
        invariant
            i <= members@.len(),
            all == members.deep_view(),
            out@ == "{"@ + joined(all.subrange(0, i as int)),
        decreases members@.len() - i,
    {
        assert(all.subrange(0, i + 1).drop_last() =~= all.subrange(0, i as int));
        if i > 0 {
            out.append(",");
        }
        out.append(members[i].as_str());
        i = i + 1;
    }
    assert(all.subrange(0, i as int) =~= all);
    out.append("}");
    out
}

} // verus!
