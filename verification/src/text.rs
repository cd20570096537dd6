//! Verified text utilities: decimal rendering and parsing, ASCII
//! case-insensitive comparison, address extraction from process output, and
//! the path / name formatting conventions of the cluster.

use vstd::prelude::*;

verus! {

// ---------------------------------------------------------------------------
// Decimal digits
// ---------------------------------------------------------------------------

/// The character for a single decimal digit.
pub open spec fn digit_char(d: int) -> char {
    if d == 0 {
        '0'
    } else if d == 1 {
        '1'
    } else if d == 2 {
        '2'
    } else if d == 3 {
        '3'
    } else if d == 4 {
        '4'
    } else if d == 5 {
        '5'
    } else if d == 6 {
        '6'
    } else if d == 7 {
        '7'
    } else if d == 8 {
        '8'
    } else {
        '9'
    }
}

/// The canonical decimal rendering of a natural number (no leading zeros,
/// except for the number 0 itself).
pub open spec fn dec_str(n: nat) -> Seq<char>
    decreases n,
{
    if n < 10 {
        seq![digit_char(n as int)]
    } else {
        dec_str(n / 10).push(digit_char((n % 10) as int))
    }
}

pub open spec fn is_digit(c: char) -> bool {
    '0' <= c && c <= '9'
}

pub open spec fn all_digits(s: Seq<char>) -> bool {
    forall|i: int| 0 <= i < s.len() ==> is_digit(#[trigger] s[i])
}

/// The numeric value of a decimal digit character.
pub open spec fn digit_val(c: char) -> int {
    c as int - 48
}

/// The numeric value of a sequence of decimal digit characters.
pub open spec fn dec_val(s: Seq<char>) -> int
    decreases s.len(),
{
    if s.len() == 0 {
        0
    } else {
        dec_val(s.drop_last()) * 10 + digit_val(s.last())
    }
}

pub proof fn lemma_dec_val_nonneg(s: Seq<char>)
    requires
        all_digits(s),
    ensures
        dec_val(s) >= 0,
    decreases s.len(),
{
    if s.len() > 0 {
        assert(all_digits(s.drop_last()));
        lemma_dec_val_nonneg(s.drop_last());
    }
}

/// A digit string's value only grows as more digits are appended: the value
/// of any prefix is a lower bound for the value of the whole string.
pub proof fn lemma_dec_val_prefix(s: Seq<char>, i: int)
    requires
        all_digits(s),
        0 <= i <= s.len(),
    ensures
        dec_val(s.subrange(0, i)) >= 0,
        dec_val(s) >= dec_val(s.subrange(0, i)),
    decreases s.len() - i,
{
    assert(all_digits(s.subrange(0, i)));
    lemma_dec_val_nonneg(s.subrange(0, i));
    if i < s.len() {
        let t = s.subrange(0, i + 1);
        assert(t.drop_last() =~= s.subrange(0, i));
        lemma_dec_val_prefix(s, i + 1);
        assert(dec_val(t) == dec_val(s.subrange(0, i)) * 10 + digit_val(s[i]));
    } else {
        assert(s.subrange(0, i) =~= s);
    }
}

fn digit_to_str(d: u64) -> (r: &'static str)
    requires
        d < 10,
    ensures
        r@ =~= seq![digit_char(d as int)],
{
    if d == 0 {
        proof {
            reveal_strlit("0");
        }
        "0"
    } else if d == 1 {
        proof {
            reveal_strlit("1");
        }
        "1"
    } else if d == 2 {
        proof {
            reveal_strlit("2");
        }
        "2"
    } else if d == 3 {
        proof {
            reveal_strlit("3");
        }
        "3"
    } else if d == 4 {
        proof {
            reveal_strlit("4");
        }
        "4"
    } else if d == 5 {
        proof {
            reveal_strlit("5");
        }
        "5"
    } else if d == 6 {
        proof {
            reveal_strlit("6");
        }
        "6"
    } else if d == 7 {
        proof {
            reveal_strlit("7");
        }
        "7"
    } else if d == 8 {
        proof {
            reveal_strlit("8");
        }
        "8"
    } else {
        proof {
            reveal_strlit("9");
        }
        "9"
    }
}

/// Renders a number in decimal, matching `dec_str`.
pub fn u64_to_string(n: u64) -> (r: String)
    ensures
        r@ =~= dec_str(n as nat),
    decreases n,
{
    if n < 10 {
        String::from_str(digit_to_str(n))
    } else {
        proof {
            assert(n as nat / 10 < n as nat) by (nonlinear_arith)
                requires
                    n >= 10,
            ;
        }
        let mut s = u64_to_string(n / 10);
        s.append(digit_to_str(n % 10));
        s
    }
}

/// Renders a number in decimal, matching `dec_str`.
pub fn usize_to_string(n: usize) -> (r: String)
    ensures
        r@ =~= dec_str(n as nat),
{
    u64_to_string(n as u64)
}

/// Whether a character sequence is a decimal count a node console may
/// report: nonempty, all digits, and a value that fits in `usize`.
pub open spec fn is_count(s: Seq<char>) -> bool {
    s.len() > 0 && all_digits(s) && dec_val(s) <= usize::MAX
}

/// Parses an unsigned decimal integer, as the transaction counters come back
/// from a node console. Succeeds exactly on nonempty all-digit strings whose
/// value fits in `usize`.
pub fn parse_usize(s: &str) -> (r: Option<usize>)
    ensures
        r is Some <==> is_count(s@),
        r is Some ==> r->0 as int == dec_val(s@),
{
    broadcast use vstd::string::is_ascii_spec_bytes;

    if !s.is_ascii() {
        proof {
            // a non-ASCII character is not a digit
            assert(!all_digits(s@)) by {
                let i = choose|i: int|
                    0 <= i < s@.len() && !('\0' <= #[trigger] s@[i] <= '\u{7f}');
                assert(!is_digit(s@[i]));
            }
        }
        return None;
    }
    let len = s.unicode_len();
    if len == 0 {
        return None;
    }
    let mut acc: usize = 0;
    let mut i: usize = 0;
    while i < len
        invariant
            0 <= i <= len,
            len == s@.len(),
            s.is_ascii(),
            all_digits(s@.subrange(0, i as int)),
            acc as int == dec_val(s@.subrange(0, i as int)),
        decreases len - i,
    {
        let b = s.get_ascii(i);
        if b < 48 || b > 57 {
            assert(!is_digit(s@[i as int]));
            return None;
        }
        let d = (b - 48) as usize;
        proof {
            assert(is_digit(s@[i as int]));
            assert(s@.subrange(0, i + 1).drop_last() =~= s@.subrange(0, i as int));
            assert(s@.subrange(0, i + 1).last() == s@[i as int]);
            assert(all_digits(s@.subrange(0, i + 1)));
        }
        if acc > (usize::MAX - d) / 10 {
            proof {
                assert(acc * 10 + d > usize::MAX) by (nonlinear_arith)
                    requires
                        acc > (usize::MAX - d) / 10,
                        0 <= d < 10,
                ;
                if s@.len() > 0 && all_digits(s@) && dec_val(s@) <= usize::MAX {
                    lemma_dec_val_prefix(s@, i + 1);
                }
            }
            return None;
        }
        acc = acc * 10 + d;
        i = i + 1;
    }
    proof {
        assert(s@.subrange(0, len as int) =~= s@);
    }
    Some(acc)
}

// ---------------------------------------------------------------------------
// ASCII case-insensitive comparison
// ---------------------------------------------------------------------------

/// Code point of a character with an ASCII lowercase letter mapped to its
/// uppercase form.
pub open spec fn upper_code(c: char) -> int {
    if 'a' <= c && c <= 'z' {
        c as int - 32
    } else {
        c as int
    }
}

/// Case-insensitive equality of two character sequences (ASCII letter case
/// only, which covers the hexadecimal addresses exchanged with the nodes).
pub open spec fn eq_ignore_case(a: Seq<char>, b: Seq<char>) -> bool {
    a.len() == b.len() && forall|i: int|
        0 <= i < a.len() ==> upper_code(#[trigger] a[i]) == upper_code(b[i])
}

/// A node's reply to the primary-account query matches its expected address:
/// the reply starts with a two-character prefix (`0x`) and the rest equals
/// the address up to letter case.
pub open spec fn account_reply_matches(resp: Seq<char>, addr: Seq<char>) -> bool {
    resp.len() >= 2 && eq_ignore_case(resp.skip(2), addr)
}

/// Compares a primary-account reply against the expected address,
/// case-insensitively, ignoring the two-character `0x` prefix of the reply.
pub fn addr_matches(resp: &str, addr: &str) -> (r: bool)
    ensures
        r == account_reply_matches(resp@, addr@),
{
    let rlen = resp.unicode_len();
    let alen = addr.unicode_len();
    if rlen < 2 {
        return false;
    }
    if rlen - 2 != alen {
        return false;
    }
    let mut i: usize = 0;
    while i < alen
        invariant
            0 <= i <= alen,
            rlen == resp@.len(),
            alen == addr@.len(),
            rlen - 2 == alen,
            forall|j: int| 0 <= j < i ==> upper_code(#[trigger] resp@.skip(2)[j]) == upper_code(
                addr@[j],
            ),
        decreases alen - i,
    {
        let cr = resp.get_char(i + 2);
        let ca = addr.get_char(i);
        let ur: u32 = if 'a' <= cr && cr <= 'z' {
            cr as u32 - 32
        } else {
            cr as u32
        };
        let ua: u32 = if 'a' <= ca && ca <= 'z' {
            ca as u32 - 32
        } else {
            ca as u32
        };
        if ur != ua {
            assert(resp@.skip(2)[i as int] == resp@[i + 2]);
            return false;
        }
        assert(resp@.skip(2)[i as int] == resp@[i + 2]);
        i = i + 1;
    }
    true
}

// ---------------------------------------------------------------------------
// Address extraction from the account-creation output
// ---------------------------------------------------------------------------

/// Whether positions `i`, `i+1` of `s` hold the characters `0x`.
pub open spec fn ox_at(s: Seq<char>, i: int) -> bool {
    s[i] == '0' && s[i + 1] == 'x'
}

/// Index of the first occurrence of `0x` at or after `from`, if any.
pub open spec fn find_ox(s: Seq<char>, from: int) -> Option<int>
    decreases s.len() - from when 0 <= from <= s.len()
{
    if from + 2 > s.len() {
        None::<int>
    } else if ox_at(s, from) {
        Some(from)
    } else {
        find_ox(s, from + 1)
    }
}

/// Scrapes a wallet address out of the account-creation output: the 40
/// characters that follow the first `0x`. Returns `None` when no `0x` occurs
/// or fewer than 40 characters follow it.
pub fn extract_address(out: &str) -> (r: Option<String>)
    ensures
        match r {
            Some(a) => {
                &&& find_ox(out@, 0) matches Some(i)
                &&& i + 42 <= out@.len()
                &&& a@ == out@.subrange(find_ox(out@, 0)->0 + 2, find_ox(out@, 0)->0 + 42)
            },
            None => match find_ox(out@, 0) {
                Some(i) => i + 42 > out@.len(),
                None => true,
            },
        },
{
    let len = out.unicode_len();
    if len < 2 {
        return None;
    }
    let mut i: usize = 0;
    while i < len - 1
        invariant
            0 <= i,
            2 <= len,
            i + 2 <= len + 1,
            len == out@.len(),
            find_ox(out@, 0) == find_ox(out@, i as int),
        decreases len - i,
    {
        let c0 = out.get_char(i);
        let c1 = out.get_char(i + 1);
        if c0 == '0' && c1 == 'x' {
            assert(find_ox(out@, i as int) == Some(i as int));
            if len - i < 42 {
                return None;
            }
            let a = out.substring_char(i + 2, i + 42);
            return Some(a.to_owned());
        }
        assert(!ox_at(out@, i as int));
        i = i + 1;
    }
    assert(find_ox(out@, i as int) is None);
    None
}

// ---------------------------------------------------------------------------
// Path and name conventions
// ---------------------------------------------------------------------------

/// View of the data directory of node `id` under the nodes directory.
pub open spec fn node_dir_view(nodes_dir: Seq<char>, id: nat) -> Seq<char> {
    nodes_dir + "/node"@ + dec_str(id) + "/data"@
}

/// Data directory of node `id`: `<nodes_dir>/node<id>/data`.
pub fn node_dir(nodes_dir: &str, id: usize) -> (r: String)
    ensures
        r@ =~= node_dir_view(nodes_dir@, id as nat),
{
    let mut s = String::from_str(nodes_dir);
    s.append("/node");
    let num = usize_to_string(id);
    s.append(num.as_str());
    s.append("/data");
    s
}

/// View of the IPC endpoint name of node `id`.
pub open spec fn ipc_path_view(id: nat) -> Seq<char> {
    "geth"@ + dec_str(id) + ".ipc"@
}

/// IPC endpoint name of node `id`: `geth<id>.ipc`.
pub fn ipc_path(id: usize) -> (r: String)
    ensures
        r@ =~= ipc_path_view(id as nat),
{
    let mut s = String::from_str("geth");
    let num = usize_to_string(id);
    s.append(num.as_str());
    s.append(".ipc");
    s
}

// ---------------------------------------------------------------------------
// Bytes to text
// ---------------------------------------------------------------------------

/// Relies on `String::from_utf8`: a sequence of bytes below 128 is valid
/// UTF-8 and decodes to exactly one character per byte.
#[verifier::external_body]
fn ascii_to_string(v: Vec<u8>) -> (r: String)
    requires
        forall|i: int| 0 <= i < v@.len() ==> v@[i] < 128,
    ensures
        r@.len() == v@.len(),
        forall|i: int|
            0 <= i < v@.len() ==> (#[trigger] r@[i]) as u8 == v@[i] && r@[i] <= '\u{7f}',
{
    String::from_utf8(v).unwrap()
}

/// Decodes a byte sequence as text, accepting only ASCII.
pub fn bytes_to_ascii_string(v: Vec<u8>) -> (r: Option<String>)
    ensures
        r is Some <==> (forall|i: int| 0 <= i < v@.len() ==> v@[i] < 128),
        r is Some ==> r->0@.len() == v@.len() && (forall|i: int|
            0 <= i < v@.len() ==> (#[trigger] r->0@[i]) as u8 == v@[i] && r->0@[i] <= '\u{7f}'),
{
    let len = v.len();
    let mut i: usize = 0;
    while i < len
        invariant
            0 <= i <= len,
            len == v@.len(),
            forall|j: int| 0 <= j < i ==> v@[j] < 128,
        decreases len - i,
    {
        if v[i] >= 128 {
            return None;
        }
        i = i + 1;
    }
    Some(ascii_to_string(v))
}

} // verus!
