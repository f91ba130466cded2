//! Text-to-Morse translation.
//!
//! A fixed table maps the 26 ASCII letters (case-insensitively), the 10
//! digits, and the space character to their code strings; every other
//! character is rejected. Translation appends one code group and one
//! separator space per input character, atomically for the whole input.

use vstd::prelude::*;

verus! {

/// The characters that translation accepts: ASCII letters, ASCII digits and space.
pub open spec fn is_valid_char(c: char) -> bool {
    ('A' <= c && c <= 'Z') || ('a' <= c && c <= 'z') || ('0' <= c && c <= '9') || c == ' '
}

/// Every character of the sequence is accepted by translation.
pub open spec fn all_valid(s: Seq<char>) -> bool {
    forall|i: int| 0 <= i < s.len() ==> is_valid_char(#[trigger] s[i])
}

/// The fixed code table: dots and dashes for letters (either case) and
/// digits, the word-separator bar for space, and the empty sequence for
/// every character translation rejects.
pub open spec fn code_of(c: char) -> Seq<char> {
    if c == 'A' || c == 'a' {
        seq!['.', '-']
    } else if c == 'B' || c == 'b' {
        seq!['-', '.', '.', '.']
    } else if c == 'C' || c == 'c' {
        seq!['-', '.', '-', '.']
    } else if c == 'D' || c == 'd' {
        seq!['-', '.', '.']
    } else if c == 'E' || c == 'e' {
        seq!['.']
    } else if c == 'F' || c == 'f' {
        seq!['.', '.', '-', '.']
    } else if c == 'G' || c == 'g' {
        seq!['-', '-', '.']
    } else if c == 'H' || c == 'h' {
        seq!['.', '.', '.', '.']
    } else if c == 'I' || c == 'i' {
        seq!['.', '.']
    } else if c == 'J' || c == 'j' {
        seq!['.', '-', '-', '-']
    } else if c == 'K' || c == 'k' {
        seq!['-', '.', '-']
    } else if c == 'L' || c == 'l' {
        seq!['.', '-', '.', '.']
    } else if c == 'M' || c == 'm' {
        seq!['-', '-']
    } else if c == 'N' || c == 'n' {
        seq!['-', '.']
    } else if c == 'O' || c == 'o' {
        seq!['-', '-', '-']
    } else if c == 'P' || c == 'p' {
        seq!['.', '-', '-', '.']
    } else if c == 'Q' || c == 'q' {
        seq!['-', '-', '.', '-']
    } else if c == 'R' || c == 'r' {
        seq!['.', '-', '.']
    } else if c == 'S' || c == 's' {
        seq!['.', '.', '.']
    } else if c == 'T' || c == 't' {
        seq!['-']
    } else if c == 'U' || c == 'u' {
        seq!['.', '.', '-']
    } else if c == 'V' || c == 'v' {
        seq!['.', '.', '.', '-']
    } else if c == 'W' || c == 'w' {
        seq!['.', '-', '-']
    } else if c == 'X' || c == 'x' {
        seq!['-', '.', '.', '-']
    } else if c == 'Y' || c == 'y' {
        seq!['-', '.', '-', '-']
    } else if c == 'Z' || c == 'z' {
        seq!['-', '-', '.', '.']
    } else if c == '0' {
        seq!['-', '-', '-', '-', '-']
    } else if c == '1' {
        seq!['.', '-', '-', '-', '-']
    } else if c == '2' {
        seq!['.', '.', '-', '-', '-']
    } else if c == '3' {
        seq!['.', '.', '.', '-', '-']
    } else if c == '4' {
        seq!['.', '.', '.', '.', '-']
    } else if c == '5' {
        seq!['.', '.', '.', '.', '.']
    } else if c == '6' {
        seq!['-', '.', '.', '.', '.']
    } else if c == '7' {
        seq!['-', '-', '.', '.', '.']
    } else if c == '8' {
        seq!['-', '-', '-', '.', '.']
    } else if c == '9' {
        seq!['-', '-', '-', '-', '.']
    } else if c == ' ' {
        seq!['|']
    } else {
        Seq::<char>::empty()
    }
}

/// The encoded form of a whole text: one code group plus one trailing
/// separator space per input character.
pub open spec fn encode_spec(s: Seq<char>) -> Seq<char>
    decreases s.len(),
{
    if s.len() == 0 {
        Seq::<char>::empty()
    } else {
        code_of(s[0]) + seq![' '] + encode_spec(s.drop_first())
    }
}

/// The code string of one character: dots and dashes for letters and
/// digits, `"|"` for space, and `""` for every rejected character.
pub fn code_for(c: char) -> (r: &'static str)
    ensures
        r@ == code_of(c),
{
    proof {
        reveal_strlit(".-");
        reveal_strlit("-...");
        reveal_strlit("-.-.");
        reveal_strlit("-..");
        reveal_strlit(".");
        reveal_strlit("..-.");
        reveal_strlit("--.");
        reveal_strlit("....");
        reveal_strlit("..");
        reveal_strlit(".---");
        reveal_strlit("-.-");
        reveal_strlit(".-..");
        reveal_strlit("--");
        reveal_strlit("-.");
        reveal_strlit("---");
        reveal_strlit(".--.");
        reveal_strlit("--.-");
        reveal_strlit(".-.");
        reveal_strlit("...");
        reveal_strlit("-");
        reveal_strlit("..-");
        reveal_strlit("...-");
        reveal_strlit(".--");
        reveal_strlit("-..-");
        reveal_strlit("-.--");
        reveal_strlit("--..");
        reveal_strlit("-----");
        reveal_strlit(".----");
        reveal_strlit("..---");
        reveal_strlit("...--");
        reveal_strlit("....-");
        reveal_strlit(".....");
        reveal_strlit("-....");
        reveal_strlit("--...");
        reveal_strlit("---..");
        reveal_strlit("----.");
        reveal_strlit("|");
        reveal_strlit("");
        assert(".-"@ =~= seq!['.', '-']);
        assert("-..."@ =~= seq!['-', '.', '.', '.']);
        assert("-.-."@ =~= seq!['-', '.', '-', '.']);
        assert("-.."@ =~= seq!['-', '.', '.']);
        assert("."@ =~= seq!['.']);
        assert("..-."@ =~= seq!['.', '.', '-', '.']);
        assert("--."@ =~= seq!['-', '-', '.']);
        assert("...."@ =~= seq!['.', '.', '.', '.']);
        assert(".."@ =~= seq!['.', '.']);
        assert(".---"@ =~= seq!['.', '-', '-', '-']);
        assert("-.-"@ =~= seq!['-', '.', '-']);
        assert(".-.."@ =~= seq!['.', '-', '.', '.']);
        assert("--"@ =~= seq!['-', '-']);
        assert("-."@ =~= seq!['-', '.']);
        assert("---"@ =~= seq!['-', '-', '-']);
        assert(".--."@ =~= seq!['.', '-', '-', '.']);
        assert("--.-"@ =~= seq!['-', '-', '.', '-']);
        assert(".-."@ =~= seq!['.', '-', '.']);
        assert("..."@ =~= seq!['.', '.', '.']);
        assert("-"@ =~= seq!['-']);
        assert("..-"@ =~= seq!['.', '.', '-']);
        assert("...-"@ =~= seq!['.', '.', '.', '-']);
        assert(".--"@ =~= seq!['.', '-', '-']);
        assert("-..-"@ =~= seq!['-', '.', '.', '-']);
        assert("-.--"@ =~= seq!['-', '.', '-', '-']);
        assert("--.."@ =~= seq!['-', '-', '.', '.']);
        assert("-----"@ =~= seq!['-', '-', '-', '-', '-']);
        assert(".----"@ =~= seq!['.', '-', '-', '-', '-']);
        assert("..---"@ =~= seq!['.', '.', '-', '-', '-']);
        assert("...--"@ =~= seq!['.', '.', '.', '-', '-']);
        assert("....-"@ =~= seq!['.', '.', '.', '.', '-']);
        assert("....."@ =~= seq!['.', '.', '.', '.', '.']);
        assert("-...."@ =~= seq!['-', '.', '.', '.', '.']);
        assert("--..."@ =~= seq!['-', '-', '.', '.', '.']);
        assert("---.."@ =~= seq!['-', '-', '-', '.', '.']);
        assert("----."@ =~= seq!['-', '-', '-', '-', '.']);
        assert("|"@ =~= seq!['|']);
        assert(""@ =~= Seq::<char>::empty());
    }
    if c == 'A' || c == 'a' {
        ".-"
    } else if c == 'B' || c == 'b' {
        "-..."
    } else if c == 'C' || c == 'c' {
        "-.-."
    } else if c == 'D' || c == 'd' {
        "-.."
    } else if c == 'E' || c == 'e' {
        "."
    } else if c == 'F' || c == 'f' {
        "..-."
    } else if c == 'G' || c == 'g' {
        "--."
    } else if c == 'H' || c == 'h' {
        "...."
    } else if c == 'I' || c == 'i' {
        ".."
    } else if c == 'J' || c == 'j' {
        ".---"
    } else if c == 'K' || c == 'k' {
        "-.-"
    } else if c == 'L' || c == 'l' {
        ".-.."
    } else if c == 'M' || c == 'm' {
        "--"
    } else if c == 'N' || c == 'n' {
        "-."
    } else if c == 'O' || c == 'o' {
        "---"
    } else if c == 'P' || c == 'p' {
        ".--."
    } else if c == 'Q' || c == 'q' {
        "--.-"
    } else if c == 'R' || c == 'r' {
        ".-."
    } else if c == 'S' || c == 's' {
        "..."
    } else if c == 'T' || c == 't' {
        "-"
    } else if c == 'U' || c == 'u' {
        "..-"
    } else if c == 'V' || c == 'v' {
        "...-"
    } else if c == 'W' || c == 'w' {
        ".--"
    } else if c == 'X' || c == 'x' {
        "-..-"
    } else if c == 'Y' || c == 'y' {
        "-.--"
    } else if c == 'Z' || c == 'z' {
        "--.."
    } else if c == '0' {
        "-----"
    } else if c == '1' {
        ".----"
    } else if c == '2' {
        "..---"
    } else if c == '3' {
        "...--"
    } else if c == '4' {
        "....-"
    } else if c == '5' {
        "....."
    } else if c == '6' {
        "-...."
    } else if c == '7' {
        "--..."
    } else if c == '8' {
        "---.."
    } else if c == '9' {
        "----."
    } else if c == ' ' {
        "|"
    } else {
        ""
    }
}

/// Whether a character is accepted; mirrors `is_valid_char`.
pub fn valid_char(c: char) -> (r: bool)
    ensures
        r == is_valid_char(c),
{
    ('A' <= c && c <= 'Z') || ('a' <= c && c <= 'z') || ('0' <= c && c <= '9') || c == ' '
}

/// How often a character occurs in a sequence. Every token of an encoded
/// message ends in exactly one separator space and holds none itself, so
/// the number of separator spaces is the number of tokens.
pub open spec fn count_char(s: Seq<char>, c: char) -> nat
    decreases s.len(),
{
    if s.len() == 0 {
        0
    } else {
        (if s[0] == c {
            1nat
        } else {
            0nat
        }) + count_char(s.drop_first(), c)
    }
}

/// The uppercase form of an ASCII letter; any other character is unchanged.
pub open spec fn to_upper(c: char) -> char {
    if 'a' <= c && c <= 'z' {
        ((c as int) - 32) as char
    } else {
        c
    }
}

/// A character that never occurs in a sequence is counted zero times.
pub proof fn lemma_count_no_occurrence(s: Seq<char>, c: char)
    requires
        forall|i: int| 0 <= i < s.len() ==> s[i] != c,
    ensures
        count_char(s, c) == 0,
    decreases s.len(),
{
    if s.len() > 0 {
        lemma_count_no_occurrence(s.drop_first(), c);
    }
}

/// Occurrence counts add up over concatenation.
pub proof fn lemma_count_concat(a: Seq<char>, b: Seq<char>, c: char)
    ensures
        count_char(a + b, c) == count_char(a, c) + count_char(b, c),
    decreases a.len(),
{
    if a.len() == 0 {
        assert(a + b =~= b);
    } else {
        lemma_count_concat(a.drop_first(), b, c);
        assert((a + b).drop_first() =~= a.drop_first() + b);
    }
}

/// No code group of the table contains a separator space.
pub proof fn lemma_code_no_space(c: char)
    ensures
        forall|i: int| 0 <= i < code_of(c).len() ==> code_of(c)[i] != ' ',
{
}

/// Translation yields one token per input character: over the valid domain,
/// the number of separator spaces in the encoding — one per token — equals
/// the length of the input.
pub proof fn lemma_translate_token_count(s: Seq<char>)
    requires
        all_valid(s),
    ensures
        count_char(encode_spec(s), ' ') == s.len(),
    decreases s.len(),
{
    if s.len() == 0 {
    } else {
        assert(is_valid_char(s[0]));
        lemma_code_no_space(s[0]);
        lemma_count_no_occurrence(code_of(s[0]), ' ');
        lemma_count_concat(code_of(s[0]), seq![' '], ' ');
        lemma_count_concat(code_of(s[0]) + seq![' '], encode_spec(s.drop_first()), ' ');
        assert(seq![' '].drop_first() =~= Seq::<char>::empty());
        assert(count_char(Seq::<char>::empty(), ' ') == 0);
        assert(count_char(seq![' '], ' ') == 1);
        lemma_translate_token_count(s.drop_first());
    }
}

/// Translation is case-insensitive: a letter and its uppercase form share
/// one code group, and every non-letter is untouched by case folding.
pub proof fn lemma_code_case_insensitive(c: char)
    ensures
        code_of(to_upper(c)) == code_of(c),
{
}

/// Case-folding a whole text does not change its encoding.
pub proof fn lemma_encode_case_insensitive(s: Seq<char>)
    ensures
        encode_spec(s.map_values(|c: char| to_upper(c))) == encode_spec(s),
    decreases s.len(),
{
    let mapped = s.map_values(|c: char| to_upper(c));
    if s.len() == 0 {
        assert(mapped =~= Seq::<char>::empty());
    } else {
        lemma_code_case_insensitive(s[0]);
        lemma_encode_case_insensitive(s.drop_first());
        assert(mapped.drop_first() =~= s.drop_first().map_values(|c: char| to_upper(c)));
        assert(mapped[0] == to_upper(s[0]));
        assert(encode_spec(mapped) =~= encode_spec(s));
    }
}

/// The word-separator code is distinct from the code group of every letter
/// and digit, so word boundaries are recognizable in an encoded message.
pub proof fn lemma_word_separator_distinct(c: char)
    requires
        is_valid_char(c),
        c != ' ',
    ensures
        code_of(c) != code_of(' '),
{
    assert(code_of(' ')[0] == '|');
    assert(code_of(c)[0] == '.' || code_of(c)[0] == '-');
}

/// Extending the input by one character extends its encoding by that
/// character's code group and one separator space.
pub proof fn lemma_encode_snoc(s: Seq<char>, c: char)
    ensures
        encode_spec(s.push(c)) == encode_spec(s) + code_of(c) + seq![' '],
    decreases s.len(),
{
    if s.len() == 0 {
        assert(s.push(c)[0] == c);
        assert(s.push(c).drop_first() =~= Seq::<char>::empty());
        assert(encode_spec(Seq::<char>::empty()) == Seq::<char>::empty());
        assert(encode_spec(s.push(c)) == code_of(c) + seq![' '] + Seq::<char>::empty());
        assert(encode_spec(s.push(c)) =~= encode_spec(s) + code_of(c) + seq![' ']);
    } else {
        lemma_encode_snoc(s.drop_first(), c);
        assert(s.push(c).drop_first() =~= s.drop_first().push(c));
        assert(encode_spec(s.push(c)) =~= encode_spec(s) + code_of(c) + seq![' ']);
    }
}

/// Translates a whole text to Morse code: one code group and one trailing
/// separator space per character. Succeeds exactly when every character is
/// an ASCII letter, an ASCII digit or a space; a single invalid character
/// fails the whole translation and no output is produced.
pub fn morsify_text(text: &String) -> (r: Result<String, ()>)
    ensures
        r is Ok <==> all_valid(text@),
        r is Ok ==> r.unwrap()@ == encode_spec(text@),
{
    let text_str = text.as_str();
    let n = text_str.unicode_len();
    let mut morsified = String::new();
    let mut i: usize = 0;
    proof {
        reveal_strlit(" ");
        assert(text@.take(0) =~= Seq::<char>::empty());
    }
    while i < n
        invariant
            n == text@.len(),
            text_str@ == text@,
            i <= n,
            all_valid(text@.take(i as int)),
            morsified@ == encode_spec(text@.take(i as int)),
            " "@ =~= seq![' '],
        decreases n - i,
    {
        let c = text_str.get_char(i);
        if !valid_char(c) {
            return Err(());
        }
        morsified.append(code_for(c));
        morsified.append(" ");
        proof {
            lemma_encode_snoc(text@.take(i as int), c);
            assert(text@.take(i + 1) =~= text@.take(i as int).push(text@[i as int]));
        }
        i = i + 1;
    }
    proof {
        assert(text@.take(n as int) =~= text@);
    }
    Ok(morsified)
}

} // verus!
