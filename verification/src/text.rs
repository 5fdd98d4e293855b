//! Small verified text helpers: comparing strings and printing hashes.
use vstd::prelude::*;
use vstd::string::*;
use vstd::utf8::*;

verus! {

/// Whether two strings hold the same characters.
pub fn str_eq(a: &str, b: &str) -> (r: bool)
    ensures
        r == (a@ == b@),
{
    let x = a.as_bytes();
    let y = b.as_bytes();
    proof {
        encode_utf8_decode_utf8(a@);
        encode_utf8_decode_utf8(b@);
    }
    if x.len() != y.len() {
        return false;
    }
    let mut i: usize = 0;
    while i < x.len()
        invariant
            i <= x.len(),
            x.len() == y.len(),
            x@ == a.spec_bytes(),
            y@ == b.spec_bytes(),
            forall|j: int| 0 <= j < i ==> x@[j] == y@[j],
        decreases x.len() - i,
    {
        if x[i] != y[i] {
            return false;
        }
        i = i + 1;
    }
    assert(x@ =~= y@);
    true
}

/// The lowercase hexadecimal digit of value `n`, for `0 <= n < 16`.
pub open spec fn hex_digit(n: int) -> char {
    "0123456789abcdef"@[n]
}

/// The last `width` hexadecimal digits of `value`, most significant first,
/// padded with zeros.
pub open spec fn hex_digits(value: nat, width: nat) -> Seq<char>
    decreases width,
{
    if width == 0 {
        Seq::empty()
    } else {
        hex_digits(value / 16, (width - 1) as nat).push(hex_digit((value % 16) as int))
    }
}

/// How a communicator hash is printed: `0x` and sixteen lowercase digits.
pub open spec fn hash_text(hash: u64) -> Seq<char> {
    "0x"@ + hex_digits(hash as nat, 16)
}

fn digit_str(n: u64) -> (r: &'static str)
    requires
        n < 16,
    ensures
        r@ == seq![hex_digit(n as int)],
{
    proof {
        reveal_strlit("0123456789abcdef");
        reveal_strlit("0");
        reveal_strlit("1");
        reveal_strlit("2");
        reveal_strlit("3");
        reveal_strlit("4");
        reveal_strlit("5");
        reveal_strlit("6");
        reveal_strlit("7");
        reveal_strlit("8");
        reveal_strlit("9");
        reveal_strlit("a");
        reveal_strlit("b");
        reveal_strlit("c");
        reveal_strlit("d");
        reveal_strlit("e");
        reveal_strlit("f");
    }
    let r = match n {
        0 => "0",
        1 => "1",
        2 => "2",
        3 => "3",
        4 => "4",
        5 => "5",
        6 => "6",
        7 => "7",
        8 => "8",
        9 => "9",
        10 => "a",
        11 => "b",
        12 => "c",
        13 => "d",
        14 => "e",
        _ => "f",
    };
    assert(r@ =~= seq![hex_digit(n as int)]);
    r
}

fn push_hex(out: &mut String, value: u64, width: u32)
    ensures
        final(out)@ == old(out)@ + hex_digits(value as nat, width as nat),
    decreases width,
{
    if width > 0 {
        push_hex(out, value / 16, width - 1);
        out.append(digit_str(value % 16));
    }
    assert(out@ =~= old(out)@ + hex_digits(value as nat, width as nat));
}

/// Prints a communicator hash as `0x` followed by sixteen lowercase
/// hexadecimal digits.
pub fn format_hash(hash: u64) -> (r: String)
    ensures
        r@ == hash_text(hash),
{
    let mut out = String::from_str("0x");
    push_hex(&mut out, hash, 16);
    out
}

/// `16` to the power of `width`.
spec fn pow16(width: nat) -> nat
    decreases width,
{
    if width == 0 {
        1
    } else {
        16 * pow16((width - 1) as nat)
    }
}

proof fn lemma_hex_digit_identifies(a: int, b: int)
    requires
        0 <= a < 16,
        0 <= b < 16,
        hex_digit(a) == hex_digit(b),
    ensures
        a == b,
{
    reveal_strlit("0123456789abcdef");
}

proof fn lemma_hex_digits_identify(a: nat, b: nat, width: nat)
    requires
        a < pow16(width),
        b < pow16(width),
        hex_digits(a, width) == hex_digits(b, width),
    ensures
        a == b,
    decreases width,
{
    if width > 0 {
        let rest = (width - 1) as nat;
        let x = hex_digits(a, width);
        let y = hex_digits(b, width);
        assert(x.last() == y.last());
        assert(x.drop_last() =~= hex_digits(a / 16, rest));
        assert(y.drop_last() =~= hex_digits(b / 16, rest));
        lemma_hex_digit_identifies((a % 16) as int, (b % 16) as int);
        lemma_hex_digits_identify(a / 16, b / 16, rest);
    }
}

/// The printed hash identifies the communicator.
pub proof fn law_hash_text_identifies(a: u64, b: u64)
    ensures
        hash_text(a) == hash_text(b) <==> a == b,
{
    if hash_text(a) == hash_text(b) {
        assert(hash_text(a).skip("0x"@.len() as int) =~= hex_digits(a as nat, 16));
        assert(hash_text(b).skip("0x"@.len() as int) =~= hex_digits(b as nat, 16));
        assert(pow16(16) == 0x1_0000_0000_0000_0000) by {
            reveal_with_fuel(pow16, 17);
        }
        lemma_hex_digits_identify(a as nat, b as nat, 16);
    }
}

/// The value of a lowercase hexadecimal digit.
pub open spec fn digit_value(c: char) -> int {
    if '0' <= c <= '9' {
        c as int - '0' as int
    } else {
        c as int - 'a' as int + 10
    }
}

/// The number that a text of hexadecimal digits stands for.
pub open spec fn hex_value(text: Seq<char>) -> int
    decreases text.len(),
{
    if text.len() == 0 {
        0
    } else {
        16 * hex_value(text.drop_last()) + digit_value(text.last())
    }
}

proof fn lemma_hex_digits_read_back(value: nat, width: nat)
    requires
        value < pow16(width),
    ensures
        hex_digits(value, width).len() == width,
        hex_value(hex_digits(value, width)) == value,
        forall|i: int|
            0 <= i < width ==> {
                ||| '0' <= #[trigger] hex_digits(value, width)[i] <= '9'
                ||| 'a' <= hex_digits(value, width)[i] <= 'f'
            },
    decreases width,
{
    if width > 0 {
        let rest = hex_digits(value / 16, (width - 1) as nat);
        let text = hex_digits(value, width);
        lemma_hex_digits_read_back(value / 16, (width - 1) as nat);
        reveal_strlit("0123456789abcdef");
        assert(text.drop_last() =~= rest);
        assert forall|i: int| 0 <= i < width implies {
            ||| '0' <= #[trigger] text[i] <= '9'
            ||| 'a' <= text[i] <= 'f'
        } by {
            if i < width - 1 {
                assert(text[i] == rest[i]);
            }
        }
    }
}

/// The printed hash is `0x` and sixteen lowercase hexadecimal digits, which
/// read back as the hash.
pub proof fn law_hash_text_reads_back(hash: u64)
    ensures
        hash_text(hash).len() == 18,
        hash_text(hash)[0] == '0',
        hash_text(hash)[1] == 'x',
        hex_value(hash_text(hash).skip(2)) == hash,
        forall|i: int|
            2 <= i < 18 ==> {
                ||| '0' <= #[trigger] hash_text(hash)[i] <= '9'
                ||| 'a' <= hash_text(hash)[i] <= 'f'
            },
{
    reveal_strlit("0x");
    assert(pow16(16) == 0x1_0000_0000_0000_0000) by {
        reveal_with_fuel(pow16, 17);
    }
    let digits = hex_digits(hash as nat, 16);
    lemma_hex_digits_read_back(hash as nat, 16);
    assert(hash_text(hash).skip(2) =~= digits);
    assert forall|i: int| 2 <= i < 18 implies {
        ||| '0' <= #[trigger] hash_text(hash)[i] <= '9'
        ||| 'a' <= hash_text(hash)[i] <= 'f'
    } by {
        assert(hash_text(hash)[i] == digits[i - 2]);
    }
}

/// A rank can be told from its value as an attribute.
pub proof fn lemma_rank_cast(a: usize, b: usize)
    ensures
        a as i64 == b as i64 <==> a == b,
{
    assert(a as i64 == b as i64 <==> a == b) by (bit_vector);
}

} // verus!
