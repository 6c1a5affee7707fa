use vstd::prelude::*;
use vstd::utf8::encode_utf8;

verus! {

/// Errors of the OSC codec.
#[verifier::external_type_specification]
#[verifier::external_body]
pub struct ExOscError(rosc::OscError);

/// Number of zero bytes that bring a length of `n` bytes to a multiple of four.
pub open spec fn padding(n: nat) -> nat {
    if n % 4 == 0 {
        0
    } else {
        (4 - n % 4) as nat
    }
}

/// OSC encoding of a string: its UTF-8 bytes, a terminating zero byte, then zero
/// bytes up to a multiple of four.
pub open spec fn osc_string(s: Seq<char>) -> Seq<u8> {
    let raw = encode_utf8(s).push(0u8);
    raw + Seq::new(padding(raw.len()), |i: int| 0u8)
}

/// OSC encoding of a message with address `addr` and the single string argument `arg`:
/// the address, the type tags `,s`, then the argument.
pub open spec fn string_message_bytes(addr: Seq<char>, arg: Seq<char>) -> Seq<u8> {
    osc_string(addr) + osc_string(",s"@) + osc_string(arg)
}

/// Calls `rosc::encoder::encode` on the message with address `addr` and the single
/// argument `OscType::String(arg)`. For such a message rosc's encoder cannot fail,
/// and it writes the address, the type tag string `",s"` and the argument, each
/// terminated by a zero byte and padded with zero bytes to a multiple of four.
#[verifier::external_body]
fn encode_string_message(addr: &str, arg: String) -> (r: Result<Vec<u8>, rosc::OscError>)
    ensures
        r is Ok,
        r->Ok_0@ == string_message_bytes(addr@, arg@),
{
    rosc::encoder::encode(
        &rosc::OscPacket::Message(
            rosc::OscMessage { addr: addr.to_string(), args: vec![rosc::OscType::String(arg)] },
        ),
    )
}

/// Decimal digits of `n`, without leading zeros.
pub open spec fn decimal_digits(n: nat) -> Seq<char>
    decreases n,
{
    if n < 10 {
        seq![(48 + n) as char]
    } else {
        decimal_digits(n / 10).push((48 + n % 10) as char)
    }
}

/// Calls `usize::to_string`, which writes `n` in decimal without sign or leading zeros.
#[verifier::external_body]
fn decimal_text(n: usize) -> (s: String)
    ensures
        s@ == decimal_digits(n as nat),
{
    n.to_string()
}

/// One point of the level overview: `[index,value]`.
pub open spec fn rms_entry(index: nat, value: Seq<char>) -> Seq<char> {
    "["@ + decimal_digits(index) + ","@ + value + "]"@
}

/// The points of the level overview, separated by commas.
pub open spec fn rms_entries(values: Seq<Seq<char>>) -> Seq<char>
    decreases values.len(),
{
    if values.len() == 0 {
        Seq::empty()
    } else if values.len() == 1 {
        rms_entry(0, values[0])
    } else {
        rms_entries(values.drop_last()) + ","@ + rms_entry(
            (values.len() - 1) as nat,
            values.last(),
        )
    }
}

/// The level overview as sent to the user interface: `[[0,v0],[1,v1],...]`, where
/// `vi` is the text of the `i`-th level.
pub open spec fn rms_payload_of(values: Seq<Seq<char>>) -> Seq<char> {
    "["@ + rms_entries(values) + "]"@
}

/// Texts of a sequence of strings.
pub open spec fn texts(values: Seq<String>) -> Seq<Seq<char>> {
    values.map_values(|s: String| s@)
}

/// Writes the level overview whose `i`-th level reads `values[i]`.
pub fn rms_payload(values: &Vec<String>) -> (p: String)
    ensures
        p@ == rms_payload_of(texts(values@)),
        p@ == "["@ + rms_entries(values@.map_values(|s: String| s@)) + "]"@,
{
    let ghost views = texts(values@);
    let mut entries = String::new();
    let n = values.len();
    let mut i: usize = 0;
    while i < n
        invariant
            n == values@.len(),
            views == texts(values@),
            i <= n,
            entries@ == rms_entries(views.take(i as int)),
        decreases n - i,
    {
        if i > 0 {
            entries.append(",");
        }
        entries.append("[");
        let index = decimal_text(i);
        entries.append(index.as_str());
        entries.append(",");
        entries.append(values[i].as_str());
        entries.append("]");
        proof {
            assert(views.take(i + 1).drop_last() =~= views.take(i as int));
            assert(views.take(i + 1).last() == values@[i as int]@);
            if i == 0 {
                assert(entries@ =~= rms_entry(0, views.take(1)[0]));
            } else {
                assert(entries@ =~= rms_entries(views.take(i as int)) + ","@ + rms_entry(
                    i as nat,
                    views.take(i + 1).last(),
                ));
            }
        }
        i = i + 1;
    }
    proof {
        assert(views.take(n as int) =~= views);
    }
    let mut p = String::new();
    p.append("[");
    p.append(entries.as_str());
    p.append("]");
    proof {
        assert(p@ =~= rms_payload_of(views));
        assert(views == values@.map_values(|s: String| s@));
    }
    p
}

/// The OSC message `/rms` carrying the level overview whose `i`-th level reads
/// `values[i]`.
pub fn rms_message(values: &Vec<String>) -> (bytes: Vec<u8>)
    ensures
        bytes@ == string_message_bytes("/rms"@, rms_payload_of(texts(values@))),
        bytes@ == string_message_bytes(
            "/rms"@,
            "["@ + rms_entries(values@.map_values(|s: String| s@)) + "]"@,
        ),
{
    let payload = rms_payload(values);
    encode_string_message("/rms", payload).unwrap()
}

/// An OSC string is a whole number of four-byte words, and its text is followed
/// by at least one zero byte.
pub proof fn lemma_osc_string_aligned(s: Seq<char>)
    ensures
        osc_string(s).len() % 4 == 0,
        osc_string(s).len() > encode_utf8(s).len(),
        osc_string(s).len() <= encode_utf8(s).len() + 4,
        osc_string(s).subrange(0, encode_utf8(s).len() as int) == encode_utf8(s),
        forall|i: int| encode_utf8(s).len() <= i < osc_string(s).len() ==> osc_string(s)[i] == 0u8,
{
    let raw = encode_utf8(s).push(0u8);
    assert(osc_string(s).subrange(0, encode_utf8(s).len() as int) =~= encode_utf8(s));
}

/// A message with one string argument is a whole number of four-byte words.
pub proof fn lemma_string_message_aligned(addr: Seq<char>, arg: Seq<char>)
    ensures
        string_message_bytes(addr, arg).len() % 4 == 0,
{
    lemma_osc_string_aligned(addr);
    lemma_osc_string_aligned(",s"@);
    lemma_osc_string_aligned(arg);
}

/// The overview entries are, in order, one per level: the entries of all levels
/// but the last, a comma, then `[`, the decimal index of the last level, `,`, its
/// text and `]`; a single level gives `[0,text]`, and no level gives nothing.
/// Hence entry `k` always carries the index `k` and every level has an entry.
pub proof fn lemma_rms_entries_by_last(values: Seq<Seq<char>>)
    ensures
        values.len() == 0 ==> rms_entries(values) == Seq::<char>::empty(),
        values.len() == 1 ==> rms_entries(values) == "["@ + decimal_digits(0) + ","@ + values[0]
            + "]"@,
        values.len() > 1 ==> rms_entries(values) == rms_entries(values.drop_last()) + ","@ + (
        "["@ + decimal_digits((values.len() - 1) as nat) + ","@ + values.last() + "]"@),
{
}

/// Entry `k` of the overview carries the index `k`: the entries of the first
/// `k + 1` levels end with `[`, the decimal text of `k`, `,`, the text of level `k`
/// and `]`, and they begin the entries of all levels.
pub proof fn lemma_rms_entry_at(values: Seq<Seq<char>>, k: int)
    requires
        0 <= k < values.len(),
    ensures
        ({
            let head = rms_entries(values.take(k + 1));
            let e = "["@ + decimal_digits(k as nat) + ","@ + values[k] + "]"@;
            &&& head.len() >= e.len()
            &&& head.subrange(head.len() - e.len(), head.len() as int) == e
            &&& rms_entries(values).len() >= head.len()
            &&& rms_entries(values).subrange(0, head.len() as int) == head
        }),
    decreases values.len(),
{
    let t = values.take(k + 1);
    let head = rms_entries(t);
    let e = "["@ + decimal_digits(k as nat) + ","@ + values[k] + "]"@;
    assert(t.last() == values[k]);
    if k == 0 {
        assert(head == e);
        assert(head.subrange(0, head.len() as int) =~= e);
    } else {
        assert(t.len() == k + 1);
        assert(head == (rms_entries(t.drop_last()) + ","@) + e);
        assert(head.subrange(head.len() - e.len(), head.len() as int) =~= e);
    }
    if k + 1 == values.len() {
        assert(t =~= values);
        assert(rms_entries(values).subrange(0, head.len() as int) =~= head);
    } else {
        lemma_rms_entry_at(values.drop_last(), k);
        assert(values.drop_last().take(k + 1) =~= t);
        let whole = rms_entries(values);
        let last = "["@ + decimal_digits((values.len() - 1) as nat) + ","@ + values.last() + "]"@;
        assert(whole == rms_entries(values.drop_last()) + ","@ + last);
        assert(whole.subrange(0, head.len() as int) =~= rms_entries(values.drop_last()).subrange(
            0,
            head.len() as int,
        ));
    }
}

/// Number written by a string of decimal digits.
pub open spec fn digits_value(s: Seq<char>) -> int
    decreases s.len(),
{
    if s.len() == 0 {
        0
    } else {
        digits_value(s.drop_last()) * 10 + (s.last() as int - 48)
    }
}

/// The decimal text of `n` is made of digits, has no leading zero, and reads back
/// as `n`.
pub proof fn lemma_decimal_digits_read_back(n: nat)
    ensures
        digits_value(decimal_digits(n)) == n,
        decimal_digits(n).len() >= 1,
        forall|i: int|
            0 <= i < decimal_digits(n).len() ==> '0' <= #[trigger] decimal_digits(n)[i] <= '9',
        n >= 10 ==> decimal_digits(n)[0] != '0',
    decreases n,
{
    if n < 10 {
        let d = decimal_digits(n);
        assert(d.drop_last() =~= Seq::<char>::empty());
        assert(d.last() as int == 48 + n);
        assert(digits_value(d.drop_last()) == 0);
        assert(digits_value(d) == n);
    } else {
        lemma_decimal_digits_read_back(n / 10);
        let d = decimal_digits(n);
        assert(d.drop_last() =~= decimal_digits(n / 10));
        assert(d.last() == (48 + n % 10) as char);
        assert(d.last() as int == 48 + n % 10);
        assert(digits_value(d) == digits_value(decimal_digits(n / 10)) * 10 + (n % 10));
        assert((n / 10) * 10 + n % 10 == n);
        assert(digits_value(d) == n);
        assert(n / 10 >= 10 ==> decimal_digits(n / 10)[0] != '0');
        assert(n / 10 < 10 ==> decimal_digits(n / 10) =~= seq![(48 + n / 10) as char]);
    }
}

} // verus!
