//! Text that the bridge builds: decimal numbers, byte lists, worker scripts,
//! socket addresses and error reports.

use vstd::prelude::*;

verus! {

/// The character of the decimal digit `d`.
pub open spec fn digit_char(d: nat) -> char {
    (48 + d) as char
}

/// The decimal representation of `n`, most significant digit first, without
/// leading zeros.
pub open spec fn decimal(n: nat) -> Seq<char>
    decreases n,
{
    if n < 10 {
        seq![digit_char(n)]
    } else {
        decimal(n / 10).push(digit_char(n % 10))
    }
}

/// The number that a string of decimal digits denotes.
pub open spec fn decimal_value(s: Seq<char>) -> int
    decreases s.len(),
{
    if s.len() == 0 {
        0
    } else {
        decimal_value(s.drop_last()) * 10 + (s.last() as int - 48)
    }
}

/// Reading back the decimal representation of a number gives the number.
pub proof fn lemma_decimal_value(n: nat)
    ensures
        decimal_value(decimal(n)) == n,
        decimal(n).len() >= 1,
    decreases n,
{
    if n >= 10 {
        lemma_decimal_value(n / 10);
        let s = decimal(n);
        assert(s.drop_last() =~= decimal(n / 10));
        assert(decimal_value(s) == decimal_value(decimal(n / 10)) * 10 + (n % 10));
    } else {
        assert(decimal(n).drop_last() =~= Seq::<char>::empty());
        assert(decimal_value(Seq::<char>::empty()) == 0);
    }
}

/// Different numbers have different decimal representations.
pub proof fn lemma_decimal_injective(a: nat, b: nat)
    requires
        decimal(a) == decimal(b),
    ensures
        a == b,
{
    lemma_decimal_value(a);
    lemma_decimal_value(b);
}

/// Appends one character to a string.
///
/// Trusted: `String::push`, which the standard library documents as appending
/// the given char to the end of the string.
#[verifier::external_body]
fn push_char(s: &mut String, c: char)
    ensures
        final(s)@ == old(s)@.push(c),
{
    s.push(c);
}

/// Appends the decimal representation of `n` to `out`.
pub fn push_decimal(out: &mut String, n: u64)
    ensures
        final(out)@ == old(out)@ + decimal(n as nat),
    decreases n,
{
    if n >= 10 {
        push_decimal(out, n / 10);
    }
    let d: u8 = (n % 10) as u8;
    let c: char = (48u8 + d) as char;
    push_char(out, c);
}

/// The numbers of `data`, each in decimal, separated by `", "`.
pub open spec fn comma_separated(data: Seq<u8>) -> Seq<char>
    decreases data.len(),
{
    if data.len() == 0 {
        Seq::empty()
    } else if data.len() == 1 {
        decimal(data[0] as nat)
    } else {
        comma_separated(data.drop_last()) + ", "@ + decimal(data.last() as nat)
    }
}

/// A byte list written as the standard library's `Debug` writes a slice of
/// bytes: `[1, 2, 3]`, or `[]` when it is empty.
pub open spec fn byte_list(data: Seq<u8>) -> Seq<char> {
    "["@ + comma_separated(data) + "]"@
}

/// Appends `byte_list(data)` to `out`.
pub fn push_byte_list(out: &mut String, data: &[u8])
    ensures
        final(out)@ == old(out)@ + byte_list(data@),
{
    let ghost start = out@;
    out.append("[");
    let n = data.len();
    for i in 0..n
        invariant
            n == data@.len(),
            out@ == start + "["@ + comma_separated(data@.take(i as int)),
    {
        let ghost before = out@;
        if i > 0 {
            out.append(", ");
        }
        push_decimal(out, data[i] as u64);
        proof {
            let t = data@.take(i + 1);
            assert(t.drop_last() =~= data@.take(i as int));
            assert(t.last() == data@[i as int]);
            if i == 0 {
                assert(data@.take(0) =~= Seq::<u8>::empty());
                assert(t.len() == 1);
                assert(t[0] == data@[0]);
            }
            assert(out@ =~= start + "["@ + comma_separated(t));
        }
    }
    assert(data@.take(n as int) =~= data@);
    out.append("]");
    assert(out@ =~= old(out)@ + byte_list(data@));
}

/// The script that hands a message of the WebSocket client to the worker:
/// `onmessage({"data": <raw>});`.
pub open spec fn onmessage_script_spec(raw: Seq<char>) -> Seq<char> {
    "onmessage({\"data\": "@ + raw + "});"@
}

/// Builds the script that triggers the worker's `onmessage` handler with the
/// raw JSON text of a WebSocket message as the event's `data`.
pub fn onmessage_script(raw_message: &str) -> (script: String)
    ensures
        script@ == onmessage_script_spec(raw_message@),
{
    let mut script = String::from_str("onmessage({\"data\": ");
    script.append(raw_message);
    script.append("});");
    script
}

/// The script that hands bytes read from a RIL daemon to the worker:
/// `onRILMessage(<client id>, new Uint8Array([<bytes>]));`.
pub open spec fn on_ril_message_script_spec(client_id: u8, data: Seq<u8>) -> Seq<char> {
    "onRILMessage("@ + decimal(client_id as nat) + ", new Uint8Array("@ + byte_list(data)
        + "));"@
}

/// Builds the script that calls the worker's `onRILMessage` with the client id
/// and the bytes as a `Uint8Array`.
pub fn on_ril_message_script(client_id: u8, data: &[u8]) -> (script: String)
    ensures
        script@ == on_ril_message_script_spec(client_id, data@),
{
    let mut script = String::from_str("onRILMessage(");
    push_decimal(&mut script, client_id as u64);
    script.append(", new Uint8Array(");
    push_byte_list(&mut script, data);
    script.append("));");
    assert(script@ =~= on_ril_message_script_spec(client_id, data@));
    script
}

/// Each byte taken as the Unicode scalar value of the same number, as
/// Latin-1 text is read.
pub open spec fn latin1(bytes: Seq<u8>) -> Seq<char> {
    bytes.map_values(|b: u8| b as char)
}

/// Decodes Latin-1 bytes: every byte becomes the character with its value.
pub fn latin1_to_string(bytes: &[u8]) -> (s: String)
    ensures
        s@ == latin1(bytes@),
{
    let mut s = String::new();
    let n = bytes.len();
    for i in 0..n
        invariant
            n == bytes@.len(),
            s@ == latin1(bytes@.take(i as int)),
    {
        push_char(&mut s, bytes[i] as char);
        assert(latin1(bytes@.take(i + 1)) =~= latin1(bytes@.take(i as int)).push(bytes@[i as int] as char));
    }
    assert(bytes@.take(n as int) =~= bytes@);
    s
}


/// The path prefix of the sockets of the RIL daemons.
pub const RIL_SOCKET_NAME: &'static str = "/tmp/rilproxy";

/// The socket of the RIL daemon of a client: the daemons are named `rild`,
/// `rild2`, `rild3` and so on, so the first client's socket is the bare
/// prefix and client `k > 0` has the suffix `k + 1`.
pub open spec fn ril_socket_address_spec(client_id: u8) -> Seq<char> {
    if client_id == 0 {
        RIL_SOCKET_NAME@
    } else {
        RIL_SOCKET_NAME@ + decimal(client_id as nat + 1)
    }
}

/// The path of the socket of the RIL daemon that serves `client_id`.
pub fn ril_socket_address(client_id: u8) -> (address: String)
    ensures
        address@ == ril_socket_address_spec(client_id),
{
    let mut address = String::from_str(RIL_SOCKET_NAME);
    if client_id != 0 {
        push_decimal(&mut address, client_id as u64 + 1);
    }
    address
}

/// Two clients never share a daemon socket.
pub proof fn lemma_ril_socket_address_injective(a: u8, b: u8)
    requires
        ril_socket_address_spec(a) == ril_socket_address_spec(b),
    ensures
        a == b,
{
    let p = RIL_SOCKET_NAME@;
    if a != 0 && b != 0 {
        let sa = p + decimal(a as nat + 1);
        let sb = p + decimal(b as nat + 1);
        assert(sa.skip(p.len() as int) =~= decimal(a as nat + 1));
        assert(sb.skip(p.len() as int) =~= decimal(b as nat + 1));
        lemma_decimal_injective(a as nat + 1, b as nat + 1);
    } else if a != 0 {
        lemma_decimal_value(a as nat + 1);
        assert((p + decimal(a as nat + 1)).len() > p.len());
    } else if b != 0 {
        lemma_decimal_value(b as nat + 1);
        assert((p + decimal(b as nat + 1)).len() > p.len());
    }
}


/// How often `c` occurs in `s`.
pub open spec fn count_char(s: Seq<char>, c: char) -> nat
    decreases s.len(),
{
    if s.len() == 0 {
        0
    } else {
        count_char(s.drop_last(), c) + if s.last() == c {
            1nat
        } else {
            0nat
        }
    }
}

/// Counting over a concatenation adds the counts of its parts.
pub proof fn lemma_count_char_add(a: Seq<char>, b: Seq<char>, c: char)
    ensures
        count_char(a + b, c) == count_char(a, c) + count_char(b, c),
    decreases b.len(),
{
    if b.len() == 0 {
        assert(a + b =~= a);
    } else {
        lemma_count_char_add(a, b.drop_last(), c);
        assert((a + b).drop_last() =~= a + b.drop_last());
    }
}

/// Counting over a text with one more character adds one exactly when that
/// character is the one counted.
pub proof fn lemma_count_char_push(s: Seq<char>, x: char, c: char)
    ensures
        count_char(s.push(x), c) == count_char(s, c) + if x == c {
            1nat
        } else {
            0nat
        },
        count_char(Seq::<char>::empty(), c) == 0,
{
    assert(s.push(x).drop_last() =~= s);
}

/// Every character of a decimal representation is a digit, so none is a
/// comma.
pub proof fn lemma_decimal_digits(n: nat)
    ensures
        forall|i: int| 0 <= i < decimal(n).len() ==> 48 <= (#[trigger] decimal(n)[i]) as int <= 57,
        count_char(decimal(n), ',') == 0,
    decreases n,
{
    assert(',' as int == 44);
    if n >= 10 {
        lemma_decimal_digits(n / 10);
        let d = decimal(n / 10);
        assert(digit_char(n % 10) as int == 48 + n % 10);
        lemma_count_char_push(d, digit_char(n % 10), ',');
    } else {
        assert(digit_char(n) as int == 48 + n);
        lemma_count_char_push(Seq::<char>::empty(), digit_char(n), ',');
        assert(Seq::<char>::empty().push(digit_char(n)) =~= decimal(n));
    }
}

/// The count of commas in a text given character by character.
proof fn lemma_count_chars3(a: char, b: char, d: char)
    ensures
        count_char(seq![a], ',') == if a == ',' { 1nat } else { 0nat },
        count_char(seq![a, b], ',') == count_char(seq![a], ',') + if b == ',' { 1nat } else { 0nat },
        count_char(seq![a, b, d], ',') == count_char(seq![a, b], ',') + if d == ',' {
            1nat
        } else {
            0nat
        },
{
    lemma_count_char_push(Seq::<char>::empty(), a, ',');
    assert(Seq::<char>::empty().push(a) =~= seq![a]);
    lemma_count_char_push(seq![a], b, ',');
    assert(seq![a].push(b) =~= seq![a, b]);
    lemma_count_char_push(seq![a, b], d, ',');
    assert(seq![a, b].push(d) =~= seq![a, b, d]);
}

/// Listing one more byte appends a separator and that byte's decimal to the
/// list of the others: every byte is listed, in order, none dropped.
pub proof fn lemma_comma_separated_push(data: Seq<u8>, b: u8)
    ensures
        data.len() == 0 ==> comma_separated(data.push(b)) == decimal(b as nat),
        data.len() > 0 ==> comma_separated(data.push(b)) == comma_separated(data) + ", "@
            + decimal(b as nat),
{
    assert(data.push(b).drop_last() =~= data);
    if data.len() == 0 {
        assert(data.push(b)[0] == b);
    }
}

/// Listing two nonempty runs of bytes one after the other is listing each
/// and joining them with a separator.
pub proof fn lemma_comma_separated_concat(a: Seq<u8>, b: Seq<u8>)
    requires
        a.len() > 0,
        b.len() > 0,
    ensures
        comma_separated(a + b) == comma_separated(a) + ", "@ + comma_separated(b),
    decreases b.len(),
{
    if b.len() == 1 {
        assert(a + b =~= a.push(b[0]));
        lemma_comma_separated_push(a, b[0]);
        lemma_comma_separated_push(Seq::<u8>::empty(), b[0]);
        assert(Seq::<u8>::empty().push(b[0]) =~= b);
    } else {
        let b0 = b.drop_last();
        lemma_comma_separated_concat(a, b0);
        assert(a + b =~= (a + b0).push(b.last()));
        assert(b =~= b0.push(b.last()));
        lemma_comma_separated_push(a + b0, b.last());
        lemma_comma_separated_push(b0, b.last());
    }
}

/// A list of `n` bytes holds exactly `n - 1` commas, one between each two
/// neighbours, as no decimal holds a comma: no byte is left out.
pub proof fn lemma_comma_separated_count(data: Seq<u8>)
    ensures
        data.len() > 0 ==> count_char(comma_separated(data), ',') + 1 == data.len(),
        data.len() == 0 ==> comma_separated(data) == Seq::<char>::empty(),
        count_char(byte_list(data), ',') + 1 == if data.len() == 0 {
            1
        } else {
            data.len()
        },
    decreases data.len(),
{
    reveal_strlit(", ");
    reveal_strlit("[");
    reveal_strlit("]");
    lemma_count_chars3(',', ' ', ' ');
    assert(", "@ =~= seq![',', ' ']);
    lemma_count_chars3('[', ' ', ' ');
    assert("["@ =~= seq!['[']);
    lemma_count_chars3(']', ' ', ' ');
    assert("]"@ =~= seq![']']);
    lemma_count_char_push(Seq::<char>::empty(), ' ', ',');
    if data.len() == 1 {
        lemma_decimal_digits(data[0] as nat);
    } else if data.len() > 1 {
        let d = data.drop_last();
        lemma_comma_separated_count(d);
        assert(data =~= d.push(data.last()));
        lemma_comma_separated_push(d, data.last());
        lemma_decimal_digits(data.last() as nat);
        lemma_count_char_add(comma_separated(d), ", "@, ',');
        lemma_count_char_add(comma_separated(d) + ", "@, decimal(data.last() as nat), ',');
    }
    lemma_count_char_add("["@, comma_separated(data), ',');
    lemma_count_char_add("["@ + comma_separated(data), "]"@, ',');
    if data.len() == 0 {
        assert(count_char(Seq::<char>::empty(), ',') == 0);
    }
}

/// The script for the worker's `onmessage` holds the raw message whole: it
/// is 22 characters longer than the message, the message stands unchanged
/// from offset 19, behind `onmessage({"data": ` and before `});`.
pub proof fn lemma_onmessage_script_holds_raw(raw: Seq<char>)
    ensures
        onmessage_script_spec(raw).len() == raw.len() + 22,
        onmessage_script_spec(raw).subrange(19, 19 + raw.len() as int) == raw,
        onmessage_script_spec(raw).take(19) == "onmessage({\"data\": "@,
        onmessage_script_spec(raw).skip(19 + raw.len() as int) == "});"@,
{
    reveal_strlit("onmessage({\"data\": ");
    reveal_strlit("});");
    let s = onmessage_script_spec(raw);
    assert(s.subrange(19, 19 + raw.len() as int) =~= raw);
    assert(s.take(19) =~= "onmessage({\"data\": "@);
    assert(s.skip(19 + raw.len() as int) =~= "});"@);
}

/// The script for `onRILMessage` names the client in decimal and lists every
/// byte read, in order, as a `Uint8Array` literal; with one more byte read,
/// the script gains exactly that byte at the end of the list.
pub proof fn lemma_on_ril_message_script_lists_bytes(client_id: u8, data: Seq<u8>, b: u8)
    ensures
        on_ril_message_script_spec(client_id, data) == "onRILMessage("@ + decimal(client_id as nat)
            + ", new Uint8Array(["@ + comma_separated(data) + "]));"@,
        data.len() > 0 ==> on_ril_message_script_spec(client_id, data.push(b)) == "onRILMessage("@
            + decimal(client_id as nat) + ", new Uint8Array(["@ + comma_separated(data) + ", "@
            + decimal(b as nat) + "]));"@,
{
    reveal_strlit(", new Uint8Array(");
    reveal_strlit(", new Uint8Array([");
    reveal_strlit("[");
    reveal_strlit("]");
    reveal_strlit("]));");
    reveal_strlit("));");
    assert(", new Uint8Array("@ + "["@ =~= ", new Uint8Array(["@);
    assert("]"@ + "));"@ =~= "]));"@);
    assert(on_ril_message_script_spec(client_id, data) =~= "onRILMessage("@ + decimal(
        client_id as nat,
    ) + ", new Uint8Array(["@ + comma_separated(data) + "]));"@);
    lemma_comma_separated_push(data, b);
    assert(on_ril_message_script_spec(client_id, data.push(b)) =~= "onRILMessage("@ + decimal(
        client_id as nat,
    ) + ", new Uint8Array(["@ + comma_separated(data.push(b)) + "]));"@);
}

} // verus!
