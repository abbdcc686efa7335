use vstd::prelude::*;
use vstd::string::StringExecFns;

verus! {

/// The text that lossy UTF-8 decoding gives for the bytes.
pub uninterp spec fn lossy_utf8(bytes: Seq<u8>) -> Seq<char>;

/// Relies on `String::from_utf8_lossy`: the decoded text is a function of the
/// bytes alone, and no bytes decode to no text.
#[verifier::external_body]
pub(crate) fn decode_lossy(bytes: &[u8]) -> (r: String)
    ensures
        r@ == lossy_utf8(bytes@),
        bytes@.len() == 0 ==> r@.len() == 0,
{
    String::from_utf8_lossy(bytes).into_owned()
}

/// Number of bytes before the first zero byte, or all of them when none is zero.
pub open spec fn nul_len(bytes: Seq<u8>) -> nat
    decreases bytes.len(),
{
    if bytes.len() == 0 {
        0
    } else if bytes[0] == 0 {
        0
    } else {
        1 + nul_len(bytes.drop_first())
    }
}

/// The bytes before the first zero byte.
pub open spec fn nul_prefix_spec(bytes: Seq<u8>) -> Seq<u8> {
    bytes.take(nul_len(bytes) as int)
}

/// A position below which no byte is zero, and which holds a zero byte or the
/// end, is exactly `nul_len`.
proof fn lemma_nul_len_is(bytes: Seq<u8>, n: nat)
    requires
        n <= bytes.len(),
        forall|j: int| 0 <= j < n ==> bytes[j] != 0,
        n < bytes.len() ==> bytes[n as int] == 0,
    ensures
        nul_len(bytes) == n,
    decreases bytes.len(),
{
    if bytes.len() == 0 {
    } else if bytes[0] == 0 {
        assert(n == 0);
    } else {
        let rest = bytes.drop_first();
        assert(n >= 1);
        assert(forall|j: int| 0 <= j < n - 1 ==> rest[j] == bytes[j + 1] && bytes[j + 1] != 0);
        lemma_nul_len_is(rest, (n - 1) as nat);
    }
}

/// Copy the bytes that come before the first zero byte, as the native layer's
/// zero-terminated text buffers are read.
pub fn nul_prefix(bytes: &[u8]) -> (r: Vec<u8>)
    ensures
        r@ == nul_prefix_spec(bytes@),
{
    let n = bytes.len();
    let mut end: usize = 0;
    while end < n && bytes[end] != 0
        invariant
            end <= n,
            n == bytes@.len(),
            forall|j: int| 0 <= j < end ==> bytes@[j] != 0,
        decreases n - end,
    {
        end = end + 1;
    }
    proof {
        lemma_nul_len_is(bytes@, end as nat);
    }
    let mut r: Vec<u8> = Vec::new();
    let mut i: usize = 0;
    while i < end
        invariant
            i <= end,
            end <= n,
            n == bytes@.len(),
            r@ == bytes@.take(i as int),
        decreases end - i,
    {
        proof {
            assert(bytes@.take(i + 1) =~= bytes@.take(i as int).push(bytes@[i as int]));
        }
        r.push(bytes[i]);
        i = i + 1;
    }
    proof {
        assert(r@ =~= nul_prefix_spec(bytes@));
    }
    r
}

/// The decimal digit character for a value below ten.
pub open spec fn digit_char(d: nat) -> char {
    if d == 0 {
        '0'
    } else if d == 1 {
        '1'
    } else if d == 2 {
        '2'
    } else if d == 3 {
        '3'
    } else if d == 4 {
        '4'
    } else if d == 5 {
        '5'
    } else if d == 6 {
        '6'
    } else if d == 7 {
        '7'
    } else if d == 8 {
        '8'
    } else {
        '9'
    }
}

/// The decimal digits of a number, most significant first.
pub open spec fn dec_rep(n: nat) -> Seq<char>
    decreases n,
{
    if n < 10 {
        seq![digit_char(n)]
    } else {
        dec_rep(n / 10).push(digit_char(n % 10))
    }
}

fn digit_str(d: u32) -> (r: &'static str)
    requires
        d < 10,
    ensures
        r@ == seq![digit_char(d as nat)],
{
    match d {
        0 => {
            proof {
                reveal_strlit("0");
                assert("0"@ =~= seq![digit_char(0)]);
            }
            "0"
        },
        1 => {
            proof {
                reveal_strlit("1");
                assert("1"@ =~= seq![digit_char(1)]);
            }
            "1"
        },
        2 => {
            proof {
                reveal_strlit("2");
                assert("2"@ =~= seq![digit_char(2)]);
            }
            "2"
        },
        3 => {
            proof {
                reveal_strlit("3");
                assert("3"@ =~= seq![digit_char(3)]);
            }
            "3"
        },
        4 => {
            proof {
                reveal_strlit("4");
                assert("4"@ =~= seq![digit_char(4)]);
            }
            "4"
        },
        5 => {
            proof {
                reveal_strlit("5");
                assert("5"@ =~= seq![digit_char(5)]);
            }
            "5"
        },
        6 => {
            proof {
                reveal_strlit("6");
                assert("6"@ =~= seq![digit_char(6)]);
            }
            "6"
        },
        7 => {
            proof {
                reveal_strlit("7");
                assert("7"@ =~= seq![digit_char(7)]);
            }
            "7"
        },
        8 => {
            proof {
                reveal_strlit("8");
                assert("8"@ =~= seq![digit_char(8)]);
            }
            "8"
        },
        _ => {
            proof {
                reveal_strlit("9");
                assert("9"@ =~= seq![digit_char(9)]);
            }
            "9"
        },
    }
}

/// Render a number in decimal.
pub fn u32_decimal(n: u32) -> (r: String)
    ensures
        r@ == dec_rep(n as nat),
    decreases n,
{
    if n < 10 {
        String::from_str(digit_str(n))
    } else {
        let head = u32_decimal(n / 10);
        let tail = digit_str(n % 10);
        let r = head.concat(tail);
        proof {
            assert(r@ =~= dec_rep(n as nat));
        }
        r
    }
}

} // verus!
