//! Percent-encoding of resource names, as the archive stores them.
use vstd::prelude::*;
use vstd::utf8::{encode_utf8, is_ascii_chars, is_ascii_chars_encode_utf8};
use crate::text::{push_char, push_str};

verus! {

/// The upper-case hexadecimal digit for `n` (`0 <= n < 16`).
pub open spec fn hex_digit(n: nat) -> char {
    if n < 10 {
        ('0' as u32 + n) as char
    } else {
        ('A' as u32 + (n - 10)) as char
    }
}

/// A byte that `percent_encoding::CONTROLS` holds: a control byte
/// (`0x00`-`0x1F`, `0x7F`) or a byte outside ASCII (which that crate always
/// encodes). With `space`, the space too.
pub open spec fn in_set(b: u8, space: bool) -> bool {
    b < 0x20 || b >= 0x7f || (space && b == 0x20)
}

/// One byte after encoding: `%XX` for a byte of the set, the byte's
/// character otherwise.
pub open spec fn encoded_byte(b: u8, space: bool) -> Seq<char> {
    if in_set(b, space) {
        seq!['%', hex_digit((b / 16) as nat), hex_digit((b % 16) as nat)]
    } else {
        seq![b as char]
    }
}

/// The encoding of a sequence of bytes, byte by byte.
pub open spec fn encoded_bytes(bytes: Seq<u8>, space: bool) -> Seq<char>
    decreases bytes.len(),
{
    if bytes.len() == 0 {
        Seq::empty()
    } else {
        encoded_bytes(bytes.drop_last(), space) + encoded_byte(bytes.last(), space)
    }
}

/// The percent-encoded form of a resource name: its UTF-8 bytes, with
/// control bytes, the space and every non-ASCII byte written as `%XX`.
pub open spec fn percent_encoded(name: Seq<char>) -> Seq<char> {
    encoded_bytes(encode_utf8(name), true)
}

/// Calls `percent_encoding::utf8_percent_encode` with the set
/// `percent_encoding::CONTROLS` and collects the result into a `String`.
/// The contract claims what the crate documents: each byte of the name's
/// UTF-8 encoding that is a control byte or outside ASCII becomes `%` and
/// two upper-case hex digits, every other byte stays as it is.
#[verifier::external_body]
fn encode_controls(name: &str) -> (r: String)
    ensures
        r@ == encoded_bytes(encode_utf8(name@), false),
{
    percent_encoding::utf8_percent_encode(name, percent_encoding::CONTROLS).to_string()
}

/// `s` with every space written as `%20`.
pub open spec fn spaces_encoded(s: Seq<char>) -> Seq<char>
    decreases s.len(),
{
    if s.len() == 0 {
        s
    } else if s.last() == ' ' {
        spaces_encoded(s.drop_last()) + seq!['%', '2', '0']
    } else {
        spaces_encoded(s.drop_last()).push(s.last())
    }
}

proof fn lemma_spaces_encoded_concat(a: Seq<char>, b: Seq<char>)
    ensures
        spaces_encoded(a + b) == spaces_encoded(a) + spaces_encoded(b),
    decreases b.len(),
{
    if b.len() == 0 {
        assert(a + b =~= a);
        assert(spaces_encoded(a) + spaces_encoded(b) =~= spaces_encoded(a));
    } else {
        lemma_spaces_encoded_concat(a, b.drop_last());
        assert((a + b).drop_last() =~= a + b.drop_last());
        assert((a + b).last() == b.last());
        if b.last() == ' ' {
            assert(spaces_encoded(a) + spaces_encoded(b) =~= spaces_encoded(a) + spaces_encoded(
                b.drop_last(),
            ) + seq!['%', '2', '0']);
        } else {
            assert(spaces_encoded(a) + spaces_encoded(b) =~= (spaces_encoded(a) + spaces_encoded(
                b.drop_last(),
            )).push(b.last()));
        }
    }
}

proof fn lemma_spaces_encoded_plain(s: Seq<char>)
    requires
        forall|i: int| 0 <= i < s.len() ==> #[trigger] s[i] != ' ',
    ensures
        spaces_encoded(s) == s,
    decreases s.len(),
{
    if s.len() > 0 {
        assert(s[s.len() - 1] != ' ');
        lemma_spaces_encoded_plain(s.drop_last());
        assert(s.drop_last().push(s.last()) =~= s);
    }
}

proof fn lemma_hex_digit_not_space(n: nat)
    requires
        n < 16,
    ensures
        hex_digit(n) != ' ',
        n == 0 ==> hex_digit(n) == '0',
        n == 2 ==> hex_digit(n) == '2',
{
}

/// Writing the spaces of the control encoding as `%20` gives the encoding
/// with the space in the set.
proof fn lemma_spaces_after_controls(bytes: Seq<u8>)
    ensures
        spaces_encoded(encoded_bytes(bytes, false)) == encoded_bytes(bytes, true),
    decreases bytes.len(),
{
    if bytes.len() > 0 {
        let b = bytes.last();
        lemma_spaces_after_controls(bytes.drop_last());
        lemma_spaces_encoded_concat(encoded_bytes(bytes.drop_last(), false), encoded_byte(b, false));
        let piece = encoded_byte(b, false);
        if in_set(b, false) {
            lemma_hex_digit_not_space((b / 16) as nat);
            lemma_hex_digit_not_space((b % 16) as nat);
            assert(forall|j: int| 0 <= j < piece.len() ==> #[trigger] piece[j] != ' ');
            lemma_spaces_encoded_plain(piece);
        } else if b == 0x20 {
            lemma_hex_digit_not_space(2);
            lemma_hex_digit_not_space(0);
            assert((b as char) == ' ') by {
                assert(b == 0x20);
            }
            assert(piece =~= seq![' ']);
            assert(piece.drop_last() =~= Seq::<char>::empty());
            assert(piece.last() == ' ');
            assert(spaces_encoded(piece) == spaces_encoded(piece.drop_last()) + seq!['%', '2', '0']);
            assert(spaces_encoded(piece) =~= seq!['%', '2', '0']);
            assert(encoded_byte(b, true) =~= seq!['%', '2', '0']);
        } else {
            assert((b as char) != ' ') by {
                assert(b != 0x20);
            }
            assert(forall|j: int| 0 <= j < piece.len() ==> #[trigger] piece[j] != ' ');
            lemma_spaces_encoded_plain(piece);
        }
    }
}

/// A character that the resource-name encoding leaves as it is:
/// printable ASCII other than space.
pub open spec fn is_plain_char(c: char) -> bool {
    '!' <= c && c <= '~'
}

proof fn lemma_plain_prefix(name: Seq<char>, k: int)
    requires
        forall|i: int| 0 <= i < name.len() ==> is_plain_char(#[trigger] name[i]),
        0 <= k <= name.len(),
        is_ascii_chars(name),
        encode_utf8(name).len() == name.len(),
        forall|i: int| 0 <= i < name.len() ==> name[i] as u8 == #[trigger] encode_utf8(name)[i],
    ensures
        encoded_bytes(encode_utf8(name).take(k), true) == name.take(k),
    decreases k,
{
    let bytes = encode_utf8(name);
    if k == 0 {
        assert(bytes.take(0) =~= Seq::<u8>::empty());
        assert(name.take(0) =~= Seq::<char>::empty());
    } else {
        lemma_plain_prefix(name, k - 1);
        assert(bytes.take(k).drop_last() =~= bytes.take(k - 1));
        let c = name[k - 1];
        let b = bytes[k - 1];
        assert(is_plain_char(c));
        assert(b == c as u8);
        assert((b as char) == c) by {
            assert(0x21 <= (c as u32) <= 0x7e);
        }
        assert(name.take(k) =~= name.take(k - 1) + seq![c]);
    }
}

/// Percent-encodes a resource name with the control set plus space: the
/// control encoding comes from `percent_encoding`, the spaces are then
/// written as `%20`.
/// A name made only of printable ASCII characters other than space is
/// returned unchanged.
pub fn percent_encode_name(name: &str) -> (r: String)
    ensures
        r@ == percent_encoded(name@),
        (forall|i: int| 0 <= i < name@.len() ==> is_plain_char(#[trigger] name@[i])) ==> r@
            == name@,
{
    let encoded = encode_controls(name);
    let len = encoded.as_str().unicode_len();
    let mut out = String::new();
    let mut i: usize = 0;
    while i < len
        invariant
            len == encoded@.len(),
            i <= len,
            out@ == spaces_encoded(encoded@.take(i as int)),
        decreases len - i,
    {
        let c = encoded.as_str().get_char(i);
        assert(encoded@.take(i + 1).drop_last() =~= encoded@.take(i as int));
        if c == ' ' {
            push_str(&mut out, "%20");
            proof {
                reveal_strlit("%20");
            }
        } else {
            push_char(&mut out, c);
        }
        i = i + 1;
    }
    assert(encoded@.take(len as int) =~= encoded@);
    proof {
        lemma_spaces_after_controls(encode_utf8(name@));
    }
    let r = out;
    proof {
        if forall|i: int| 0 <= i < name@.len() ==> is_plain_char(#[trigger] name@[i]) {
            let n = name@;
            assert(is_ascii_chars(n)) by {
                assert forall|i: int| 0 <= i < n.len() implies '\0' <= #[trigger] n[i] <= '\u{7f}' by {
                    assert(is_plain_char(n[i]));
                }
            }
            is_ascii_chars_encode_utf8(n);
            lemma_plain_prefix(n, n.len() as int);
            assert(encode_utf8(n).take(n.len() as int) =~= encode_utf8(n));
            assert(n.take(n.len() as int) =~= n);
        }
    }
    r
}

} // verus!
