//! The characters that the password entry screen cycles through.
use vstd::prelude::*;

verus! {

/// Number of entries in the password alphabet.
pub const ALPHABET_LEN: usize = 94;

/// The punctuation at the end of the alphabet, in order.
pub const SYMBOLS: &'static str = "!@#$%^&*()-_=+{}[]~`:;\"><,./?|\\";

/// `count` consecutive characters from code point `first` on.
pub open spec fn char_run(first: int, count: nat) -> Seq<char> {
    Seq::new(count, |i: int| (first + i) as char)
}

/// The password alphabet, in the order in which scrolling shows it: `'_'`
/// (entry 0, shown only right after a select), then `A` to `Z`, `a` to `z`,
/// `0` to `9`, and the characters of `SYMBOLS`. Scrolling cycles through
/// entries 1 to 93.
pub open spec fn password_alphabet() -> Seq<char> {
    seq!['_'] + char_run(0x41, 26) + char_run(0x61, 26) + char_run(0x30, 10) + SYMBOLS@
}

/// Every character of `s` is in the password alphabet.
pub open spec fn from_alphabet(s: Seq<char>) -> bool {
    forall|i: int| 0 <= i < s.len() ==> #[trigger] password_alphabet().contains(s[i])
}

/// `SYMBOLS` has 31 characters.
pub proof fn lemma_symbols_len()
    ensures
        SYMBOLS@.len() == 31,
{
    reveal_strlit("!@#$%^&*()-_=+{}[]~`:;\"><,./?|\\");
}

/// The alphabet has `ALPHABET_LEN` entries.
pub proof fn lemma_alphabet_len()
    ensures
        password_alphabet().len() == ALPHABET_LEN,
{
    lemma_symbols_len();
}

/// The character `base + offset`, for an ASCII result.
fn ascii_char(base: u8, offset: usize) -> (c: char)
    requires
        base + offset < 0x80,
    ensures
        c == (base + offset) as char,
{
    let code: u8 = base + offset as u8;
    code as char
}

/// Entry `index` of the password alphabet.
pub fn password_char(index: usize) -> (c: char)
    requires
        index < ALPHABET_LEN,
    ensures
        c == password_alphabet()[index as int],
{
    proof {
        lemma_alphabet_len();
    }
    if index == 0 {
        '_'
    } else if index < 27 {
        ascii_char(0x41, index - 1)
    } else if index < 53 {
        ascii_char(0x61, index - 27)
    } else if index < 63 {
        ascii_char(0x30, index - 53)
    } else {
        proof {
            lemma_symbols_len();
        }
        SYMBOLS.get_char(index - 63)
    }
}

/// Every entry of the alphabet is in it.
pub proof fn lemma_alphabet_entry(i: int)
    requires
        0 <= i < ALPHABET_LEN,
    ensures
        password_alphabet().contains(password_alphabet()[i]),
{
    lemma_alphabet_len();
}

} // verus!
