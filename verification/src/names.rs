//! The forms of an identifier.
//!
//! An identifier is a name as the user gives it, its words separated by `-`.
//! Three forms are derived from it: the snake form (lower case, words joined
//! by `_`), the Pascal form (each word capitalized, words run together) and,
//! for the name of a node type, the type-suffix form (the Pascal form with a
//! trailing `d` of each word in upper case, as in `2D`).  An identifier that
//! holds no character but separators has no forms and is rejected.

use vstd::prelude::*;
use capitalize::Capitalize;
use crate::error::ScaffoldError;
use crate::text::chars_of;

verus! {

/// The character is one of the 128 ASCII characters.
pub open spec fn is_ascii_char(c: char) -> bool {
    c <= '\u{7f}'
}

/// The character is one of `A` to `Z`.
pub open spec fn is_ascii_uppercase(c: char) -> bool {
    'A' <= c && c <= 'Z'
}

/// The character is one of `a` to `z`.
pub open spec fn is_ascii_lowercase(c: char) -> bool {
    'a' <= c && c <= 'z'
}

/// The character is an ASCII letter.
pub open spec fn is_ascii_letter(c: char) -> bool {
    is_ascii_uppercase(c) || is_ascii_lowercase(c)
}

/// `A` to `Z` become `a` to `z`; every other character stays.
pub open spec fn ascii_lower(c: char) -> char {
    if is_ascii_uppercase(c) {
        ((c as u8) + 32) as char
    } else {
        c
    }
}

/// `a` to `z` become `A` to `Z`; every other character stays.
pub open spec fn ascii_upper(c: char) -> char {
    if is_ascii_lowercase(c) {
        ((c as u8) - 32) as char
    } else {
        c
    }
}

/// Every character of the text is an ASCII character.
pub open spec fn is_ascii_text(text: Seq<char>) -> bool {
    forall|i: int| 0 <= i < text.len() ==> is_ascii_char(#[trigger] text[i])
}

/// The text holds no `-`.
pub open spec fn has_no_separator(text: Seq<char>) -> bool {
    forall|i: int| 0 <= i < text.len() ==> #[trigger] text[i] != '-'
}

/// The text holds none of `A` to `Z`.
pub open spec fn has_no_ascii_uppercase(text: Seq<char>) -> bool {
    forall|i: int| 0 <= i < text.len() ==> !is_ascii_uppercase(#[trigger] text[i])
}

/// An identifier is valid when it holds a character other than `-`.
pub open spec fn valid_identifier(name: Seq<char>) -> bool {
    exists|i: int| 0 <= i < name.len() && #[trigger] name[i] != '-'
}

/// `at` is the place of the first character of `name` that is no `-`.
pub open spec fn is_leading_index(name: Seq<char>, at: int) -> bool {
    &&& 0 <= at < name.len()
    &&& name[at] != '-'
    &&& forall|j: int| 0 <= j < at ==> #[trigger] name[j] == '-'
}

/// The text with every `-` replaced by `_`.
pub open spec fn with_underscores(text: Seq<char>) -> Seq<char> {
    text.map_values(|c: char| if c == '-' { '_' } else { c })
}

/// The text with a trailing `d` in upper case.
pub open spec fn with_trailing_d_upcased(word: Seq<char>) -> Seq<char> {
    if word.len() > 0 && word.last() == 'd' {
        word.drop_last().push('D')
    } else {
        word
    }
}

/// The lower-case equivalent of a text, as Unicode defines it.
pub uninterp spec fn lowercase_of(text: Seq<char>) -> Seq<char>;

/// The upper-case mapping of a character, as Unicode defines it: one
/// character or more.
pub uninterp spec fn uppercase_of(c: char) -> Seq<char>;

/// A word with its first character in upper case and the rest as it is.
pub open spec fn capitalized(word: Seq<char>) -> Seq<char> {
    if word.len() == 0 {
        word
    } else {
        uppercase_of(word[0]) + word.skip(1)
    }
}

/// An ASCII word with its first character in upper case.
pub open spec fn ascii_capitalized(word: Seq<char>) -> Seq<char> {
    if word.len() == 0 {
        word
    } else {
        seq![ascii_upper(word[0])] + word.skip(1)
    }
}

/// The number of characters before the first `-` of a text, or its length
/// where it has none.
pub open spec fn word_len(text: Seq<char>) -> nat
    decreases text.len(),
{
    if text.len() == 0 || text[0] == '-' {
        0
    } else {
        1 + word_len(text.skip(1))
    }
}

/// The words of a text, each changed by `form`, run together.  A text with
/// `n` separators has `n + 1` words, some of them empty where separators
/// stand side by side or at an end.
pub open spec fn map_words(text: Seq<char>, form: spec_fn(Seq<char>) -> Seq<char>) -> Seq<char>
    decreases text.len(),
{
    let end = word_len(text) as int;
    if end >= text.len() {
        form(text)
    } else {
        form(text.take(end)) + map_words(text.skip(end + 1), form)
    }
}

/// The snake form of an identifier.
pub open spec fn snake_form_of(name: Seq<char>) -> Seq<char> {
    with_underscores(lowercase_of(name))
}

/// The snake form of an ASCII identifier.
pub open spec fn ascii_snake_form(name: Seq<char>) -> Seq<char> {
    with_underscores(name.map_values(|c: char| ascii_lower(c)))
}

/// The Pascal form of an identifier.
pub open spec fn pascal_form_of(name: Seq<char>) -> Seq<char> {
    map_words(name, |word: Seq<char>| capitalized(word))
}

/// The Pascal form of an ASCII identifier.
pub open spec fn ascii_pascal_form(name: Seq<char>) -> Seq<char> {
    map_words(name, |word: Seq<char>| ascii_capitalized(word))
}

/// The type-suffix form of an identifier.
pub open spec fn type_suffix_form_of(name: Seq<char>) -> Seq<char> {
    map_words(name, |word: Seq<char>| with_trailing_d_upcased(capitalized(word)))
}

/// The type-suffix form of an ASCII identifier.
pub open spec fn ascii_type_suffix_form(name: Seq<char>) -> Seq<char> {
    map_words(name, |word: Seq<char>| with_trailing_d_upcased(ascii_capitalized(word)))
}

/// What holds of the snake form of a valid identifier: it is not empty, it
/// holds no `-` and none of `A` to `Z`, and for an ASCII identifier it is
/// the identifier with `A` to `Z` replaced by `a` to `z` and `-` by `_`.
pub open spec fn snake_form_shape(name: Seq<char>) -> bool {
    let form = snake_form_of(name);
    &&& form.len() > 0
    &&& has_no_separator(form)
    &&& has_no_ascii_uppercase(form)
    &&& is_ascii_text(name) ==> form == ascii_snake_form(name)
}

/// What holds of the Pascal form of a valid identifier: it is not empty and
/// holds no `-`; it starts with the upper-case mapping of the identifier's
/// first character that is no `-`, which for an ASCII letter is one of `A`
/// to `Z`; and for an ASCII identifier it is the identifier's words, each
/// with `a` to `z` replaced by `A` to `Z` at its start, run together.
pub open spec fn pascal_form_shape(name: Seq<char>) -> bool {
    let form = pascal_form_of(name);
    &&& form.len() > 0
    &&& has_no_separator(form)
    &&& is_ascii_text(name) ==> form == ascii_pascal_form(name)
    &&& forall|at: int| #[trigger]
        is_leading_index(name, at) ==> {
            &&& form[0] == uppercase_of(name[at])[0]
            &&& is_ascii_char(name[at]) ==> form[0] == ascii_upper(name[at])
            &&& is_ascii_letter(name[at]) ==> is_ascii_uppercase(form[0])
        }
}

/// What holds of the type-suffix form of a valid identifier: it is not
/// empty and holds no `-`, and for an ASCII identifier it is the
/// identifier's words, each with an ASCII capital at its start and a
/// trailing `d` in upper case, run together.
pub open spec fn type_suffix_form_shape(name: Seq<char>) -> bool {
    let form = type_suffix_form_of(name);
    &&& form.len() > 0
    &&& has_no_separator(form)
    &&& is_ascii_text(name) ==> form == ascii_type_suffix_form(name)
}

/// `str::to_lowercase` of the standard library.  Believed of it: the result
/// is a function of the text alone, named `lowercase_of`; a text that is not
/// empty has a lower-case equivalent that is not empty, since every
/// character maps to one or more; the result holds none of `A` to `Z`; and
/// on an ASCII text it is the text with `A` to `Z` replaced by `a` to `z`.
#[verifier::external_body]
fn to_lowercase(text: &str) -> (lowered: String)
    ensures
        lowered@ == lowercase_of(text@),
        text@.len() > 0 ==> lowered@.len() > 0,
        has_no_ascii_uppercase(lowered@),
        is_ascii_text(text@) ==> lowered@ == text@.map_values(|c: char| ascii_lower(c)),
{
    text.to_lowercase()
}

/// `Capitalize::capitalize_first_only` of the crate `capitalize`, which
/// replaces the first character of the word by what `char::to_uppercase`
/// yields for it and keeps the rest.  Believed of it: that shape, with
/// `uppercase_of` naming the upper-case mapping; the mapping holds at least
/// one character, so the result is no shorter than the word; for an ASCII
/// first character it is that character with `a` to `z` replaced by `A` to
/// `Z`; and no character but `-` has a `-` in its mapping.
#[verifier::external_body]
fn capitalize_first(word: &str) -> (cased: String)
    ensures
        cased@ == (if word@.len() == 0 {
            word@
        } else {
            uppercase_of(word@[0]) + word@.skip(1)
        }),
        cased@.len() >= word@.len(),
        word@.len() > 0 && is_ascii_char(word@[0]) ==> cased@ == ascii_capitalized(word@),
        has_no_separator(word@) ==> has_no_separator(cased@),
{
    word.capitalize_first_only()
}

/// The length of a text's first word is the place of its first `-`, or the
/// text's length where it has none.
pub proof fn lemma_word_len(text: Seq<char>, end: int)
    requires
        0 <= end <= text.len(),
        forall|j: int| 0 <= j < end ==> text[j] != '-',
        end == text.len() || text[end] == '-',
    ensures
        word_len(text) == end,
    decreases end,
{
    if end > 0 {
        lemma_word_len(text.skip(1), end - 1);
    }
}

/// Tells whether the name holds a character other than `-`.
pub fn check_identifier(name: &str) -> (checked: Result<(), ScaffoldError>)
    ensures
        checked is Ok <==> valid_identifier(name@),
        checked is Err ==> checked->Err_0 == ScaffoldError::InvalidIdentifier,
{
    let chars = chars_of(name);
    let mut at: usize = 0;
    while at < chars.len()
        invariant
            at <= chars.len(),
            chars@ == name@,
            forall|j: int| 0 <= j < at ==> name@[j] == '-',
        decreases chars.len() - at,
    {
        if chars[at] != '-' {
            assert(name@[at as int] != '-');
            return Ok(());
        }
        at += 1;
    }
    Err(ScaffoldError::InvalidIdentifier)
}

/// Replaces every `-` of the text by `_`.
pub fn hyphens_to_underscores(text: &str) -> (replaced: String)
    ensures
        replaced@ == with_underscores(text@),
{
    let mut replaced = String::new();
    for c in it: text.chars()
        invariant
            it.seq() == text@,
            replaced@ == with_underscores(text@.take(it.index() as int)),
    {
        if c == '-' {
            replaced.push('_');
        } else {
            replaced.push(c);
        }
        assert(replaced@ =~= with_underscores(text@.take(it.index() + 1)));
    }
    replaced
}

/// Puts a trailing `d` of the word in upper case.
pub fn upcase_trailing_d(word: &str) -> (cased: String)
    ensures
        cased@ == with_trailing_d_upcased(word@),
{
    let length = word.unicode_len();
    if length > 0 && word.get_char(length - 1) == 'd' {
        let mut cased = String::from_str(word.substring_char(0, length - 1));
        cased.push('D');
        assert(cased@ =~= word@.drop_last().push('D'));
        cased
    } else {
        String::from_str(word)
    }
}

/// The word form of the Pascal form, or of the type-suffix form where
/// `suffix` is set.
spec fn word_form(suffix: bool) -> spec_fn(Seq<char>) -> Seq<char> {
    if suffix {
        |word: Seq<char>| with_trailing_d_upcased(capitalized(word))
    } else {
        |word: Seq<char>| capitalized(word)
    }
}

/// The same word form for ASCII words.
spec fn ascii_word_form(suffix: bool) -> spec_fn(Seq<char>) -> Seq<char> {
    if suffix {
        |word: Seq<char>| with_trailing_d_upcased(ascii_capitalized(word))
    } else {
        |word: Seq<char>| ascii_capitalized(word)
    }
}

/// What is known of a word once it has been capitalized: the upper-case
/// mapping of its first character is not empty, is the ASCII one for an
/// ASCII character, and brings in no separator.
spec fn capital_known(word: Seq<char>) -> bool {
    &&& capitalized(word).len() >= word.len()
    &&& word.len() > 0 && is_ascii_char(word[0]) ==> capitalized(word) == ascii_capitalized(word)
    &&& has_no_separator(word) ==> has_no_separator(capitalized(word))
}

/// `capital_known` holds of every word of the text.
spec fn capitals_known(text: Seq<char>) -> bool
    decreases text.len(),
{
    let end = word_len(text) as int;
    if end >= text.len() {
        capital_known(text)
    } else {
        capital_known(text.take(end)) && capitals_known(text.skip(end + 1))
    }
}

/// The first word of a text holds no separator and ends at the text's end
/// or before a separator.
pub proof fn lemma_word_len_bounds(text: Seq<char>)
    ensures
        word_len(text) <= text.len(),
        forall|j: int| 0 <= j < word_len(text) ==> #[trigger] text[j] != '-',
        word_len(text) < text.len() ==> text[word_len(text) as int] == '-',
    decreases text.len(),
{
    if text.len() > 0 && text[0] != '-' {
        let tail = text.skip(1);
        lemma_word_len_bounds(tail);
        assert forall|j: int| 0 <= j < word_len(text) implies #[trigger] text[j] != '-' by {
            if j > 0 {
                assert(tail[j - 1] == text[j]);
            }
        }
    }
}

/// How `map_words` goes on from a word that starts at `start` and ends at
/// `end`.
proof fn lemma_map_words_from(
    text: Seq<char>,
    start: int,
    end: int,
    form: spec_fn(Seq<char>) -> Seq<char>,
)
    requires
        0 <= start <= end <= text.len(),
        forall|j: int| start <= j < end ==> text[j] != '-',
        end == text.len() || text[end] == '-',
    ensures
        end == text.len() ==> map_words(text.skip(start), form) == form(
            text.subrange(start, end),
        ),
        end < text.len() ==> map_words(text.skip(start), form) == form(text.subrange(start, end))
            + map_words(text.skip(end + 1), form),
{
    let rest = text.skip(start);
    lemma_word_len(rest, end - start);
    if end == text.len() {
        assert(rest =~= text.subrange(start, end));
    } else {
        assert(rest.take(end - start) =~= text.subrange(start, end));
        assert(rest.skip(end - start + 1) =~= text.skip(end + 1));
    }
}

/// How the forms of an ASCII identifier go on from a word that starts at
/// `start` and ends at `end`: with that word's form, and then with the form
/// of what follows the separator behind it.
pub proof fn lemma_ascii_forms_from(text: Seq<char>, start: int, end: int)
    requires
        0 <= start <= end <= text.len(),
        forall|j: int| start <= j < end ==> text[j] != '-',
        end == text.len() || text[end] == '-',
    ensures
        end == text.len() ==> {
            &&& ascii_pascal_form(text.skip(start)) == ascii_capitalized(
                text.subrange(start, end),
            )
            &&& ascii_type_suffix_form(text.skip(start)) == with_trailing_d_upcased(
                ascii_capitalized(text.subrange(start, end)),
            )
        },
        end < text.len() ==> {
            &&& ascii_pascal_form(text.skip(start)) == ascii_capitalized(
                text.subrange(start, end),
            ) + ascii_pascal_form(text.skip(end + 1))
            &&& ascii_type_suffix_form(text.skip(start)) == with_trailing_d_upcased(
                ascii_capitalized(text.subrange(start, end)),
            ) + ascii_type_suffix_form(text.skip(end + 1))
        },
{
    lemma_map_words_from(text, start, end, |word: Seq<char>| ascii_capitalized(word));
    lemma_map_words_from(
        text,
        start,
        end,
        |word: Seq<char>| with_trailing_d_upcased(ascii_capitalized(word)),
    );
}

/// How `capitals_known` goes on from a word that starts at `start` and ends
/// at `end`.
proof fn lemma_capitals_known_from(text: Seq<char>, start: int, end: int)
    requires
        0 <= start <= end <= text.len(),
        forall|j: int| start <= j < end ==> text[j] != '-',
        end == text.len() || text[end] == '-',
    ensures
        end == text.len() ==> capitals_known(text.skip(start)) == capital_known(
            text.subrange(start, end),
        ),
        end < text.len() ==> capitals_known(text.skip(start)) == (capital_known(
            text.subrange(start, end),
        ) && capitals_known(text.skip(end + 1))),
{
    let rest = text.skip(start);
    lemma_word_len(rest, end - start);
    if end == text.len() {
        assert(rest =~= text.subrange(start, end));
    } else {
        assert(rest.take(end - start) =~= text.subrange(start, end));
        assert(rest.skip(end - start + 1) =~= text.skip(end + 1));
    }
}

/// The first word of a text: the whole text where it has no separator.
spec fn first_word(text: Seq<char>) -> Seq<char> {
    if word_len(text) >= text.len() {
        text
    } else {
        text.take(word_len(text) as int)
    }
}

/// Where every capital is known, the joined words hold no separator.
proof fn lemma_joined_has_no_separator(text: Seq<char>, suffix: bool)
    requires
        capitals_known(text),
    ensures
        has_no_separator(map_words(text, word_form(suffix))),
    decreases text.len(),
{
    let end = word_len(text) as int;
    let word = first_word(text);
    lemma_word_len_bounds(text);
    assert(has_no_separator(word));
    if end < text.len() {
        lemma_joined_has_no_separator(text.skip(end + 1), suffix);
    }
}

/// Where every capital is known, the joined words of a valid identifier are
/// not empty.
proof fn lemma_joined_is_not_empty(text: Seq<char>, suffix: bool)
    requires
        capitals_known(text),
        valid_identifier(text),
    ensures
        map_words(text, word_form(suffix)).len() > 0,
    decreases text.len(),
{
    let end = word_len(text) as int;
    let word = first_word(text);
    lemma_word_len_bounds(text);
    assert(word_form(suffix)(word).len() >= word.len());
    if word.len() == 0 {
        let rest = text.skip(end + 1);
        let at = choose|i: int| 0 <= i < text.len() && #[trigger] text[i] != '-';
        assert(rest[at - 1] == text[at]);
        lemma_joined_is_not_empty(rest, suffix);
    }
}

/// Where every capital is known, the joined words of an ASCII text are
/// those that the ASCII word form gives.
proof fn lemma_joined_ascii(text: Seq<char>, suffix: bool)
    requires
        capitals_known(text),
        is_ascii_text(text),
    ensures
        map_words(text, word_form(suffix)) == map_words(text, ascii_word_form(suffix)),
    decreases text.len(),
{
    let end = word_len(text) as int;
    let word = first_word(text);
    lemma_word_len_bounds(text);
    if word.len() > 0 {
        assert(is_ascii_char(word[0]));
    }
    assert(capitalized(word) == ascii_capitalized(word));
    if end < text.len() {
        let rest = text.skip(end + 1);
        assert forall|i: int| 0 <= i < rest.len() implies is_ascii_char(#[trigger] rest[i]) by {
            assert(rest[i] == text[i + end + 1]);
        }
        lemma_joined_ascii(rest, suffix);
    }
}

/// Where every capital is known, the joined words start with the upper-case
/// mapping of the first character that is no separator.
proof fn lemma_joined_first_char(text: Seq<char>, suffix: bool, at: int)
    requires
        capitals_known(text),
        is_leading_index(text, at),
    ensures
        map_words(text, word_form(suffix)).len() > 0,
        !suffix ==> map_words(text, word_form(suffix))[0] == uppercase_of(text[at])[0],
        is_ascii_char(text[at]) ==> map_words(text, word_form(suffix))[0] == ascii_upper(
            text[at],
        ),
    decreases text.len(),
{
    let end = word_len(text) as int;
    let word = first_word(text);
    lemma_word_len_bounds(text);
    if at == 0 {
        // the first word starts the text, and its capital starts the joined words
        let capital = capitalized(word);
        assert(word[0] == text[0]);
        assert(capital[0] == uppercase_of(text[0])[0]);
        if is_ascii_char(text[0]) {
            // an ASCII capital is no `d`, so it stays where the word is one character long
            assert(capital[0] == ascii_upper(text[0]));
        }
    } else {
        // the text starts with a separator: its first word is empty
        let rest = text.skip(1);
        assert(word.len() == 0);
        assert(is_leading_index(rest, at - 1)) by {
            assert(rest[at - 1] == text[at]);
            assert forall|j: int| 0 <= j < at - 1 implies #[trigger] rest[j] == '-' by {
                assert(rest[j] == text[j + 1]);
            }
        }
        lemma_joined_first_char(rest, suffix, at - 1);
    }
}

/// Capitalizes each word of the name and runs the words together.
fn join_cased_words(name: &str, suffix: bool) -> (joined: String)
    ensures
        joined@ == map_words(name@, word_form(suffix)),
        capitals_known(name@),
{
    let chars = chars_of(name);
    let length = chars.len();
    let mut joined = String::new();
    let mut start: usize = 0;
    let mut done = false;
    assert(name@.skip(0) =~= name@);
    while !done
        invariant
            chars@ == name@,
            length == name@.len(),
            start <= length,
            !done ==> map_words(name@, word_form(suffix)) == joined@ + map_words(
                name@.skip(start as int),
                word_form(suffix),
            ),
            !done ==> (capitals_known(name@.skip(start as int)) ==> capitals_known(name@)),
            done ==> joined@ == map_words(name@, word_form(suffix)),
            done ==> capitals_known(name@),
        decreases length - start + (if done { 0int } else { 1int }),
    {
        let mut end = start;
        while end < length && chars[end] != '-'
            invariant
                chars@ == name@,
                length == name@.len(),
                start <= end <= length,
                forall|j: int| start <= j < end ==> name@[j] != '-',
            decreases length - end,
        {
            end += 1;
        }
        let word = name.substring_char(start, end);
        let capital = capitalize_first(word);
        assert(capital_known(word@));
        let cased = if suffix {
            upcase_trailing_d(capital.as_str())
        } else {
            capital
        };
        assert(cased@ == word_form(suffix)(word@));
        let ghost before = joined@;
        proof {
            lemma_map_words_from(name@, start as int, end as int, word_form(suffix));
            lemma_capitals_known_from(name@, start as int, end as int);
        }
        joined.append(cased.as_str());
        if end == length {
            done = true;
        } else {
            assert((before + cased@) + map_words(name@.skip(end + 1), word_form(suffix)) =~= before
                + (cased@ + map_words(name@.skip(end + 1), word_form(suffix))));
            start = end + 1;
        }
    }
    joined
}

/// The snake form of an identifier: lower case, every `-` replaced by `_`.
/// An identifier without a character other than `-` is rejected.
pub fn snake_form(name: &str) -> (form: Result<String, ScaffoldError>)
    ensures
        form is Ok <==> valid_identifier(name@),
        form is Err ==> form->Err_0 == ScaffoldError::InvalidIdentifier,
        form is Ok ==> form->Ok_0@ == snake_form_of(name@) && snake_form_shape(name@),
{
    match check_identifier(name) {
        Err(error) => Err(error),
        Ok(()) => {
            let lowered = to_lowercase(name);
            Ok(hyphens_to_underscores(lowered.as_str()))
        },
    }
}

/// The Pascal form of an identifier: each word with its first character in
/// upper case and the rest unchanged, the words run together.  An
/// identifier without a character other than `-` is rejected.
pub fn pascal_form(name: &str) -> (form: Result<String, ScaffoldError>)
    ensures
        form is Ok <==> valid_identifier(name@),
        form is Err ==> form->Err_0 == ScaffoldError::InvalidIdentifier,
        form is Ok ==> form->Ok_0@ == pascal_form_of(name@) && pascal_form_shape(name@),
{
    match check_identifier(name) {
        Err(error) => Err(error),
        Ok(()) => {
            let form = join_cased_words(name, false);
            proof {
                lemma_joined_has_no_separator(name@, false);
                lemma_joined_is_not_empty(name@, false);
                if is_ascii_text(name@) {
                    lemma_joined_ascii(name@, false);
                }
                assert forall|at: int| #[trigger] is_leading_index(name@, at) implies {
                    &&& form@[0] == uppercase_of(name@[at])[0]
                    &&& is_ascii_char(name@[at]) ==> form@[0] == ascii_upper(name@[at])
                    &&& is_ascii_letter(name@[at]) ==> is_ascii_uppercase(form@[0])
                } by {
                    lemma_joined_first_char(name@, false, at);
                }
            }
            Ok(form)
        },
    }
}

/// The type-suffix form of the name of a node type: the Pascal form, but
/// with the last character of each capitalized word in upper case where it
/// is a `d`.  An identifier without a character other than `-` is rejected.
pub fn type_suffix_form(name: &str) -> (form: Result<String, ScaffoldError>)
    ensures
        form is Ok <==> valid_identifier(name@),
        form is Err ==> form->Err_0 == ScaffoldError::InvalidIdentifier,
        form is Ok ==> form->Ok_0@ == type_suffix_form_of(name@) && type_suffix_form_shape(name@),
{
    match check_identifier(name) {
        Err(error) => Err(error),
        Ok(()) => {
            let form = join_cased_words(name, true);
            proof {
                lemma_joined_has_no_separator(name@, true);
                lemma_joined_is_not_empty(name@, true);
                if is_ascii_text(name@) {
                    lemma_joined_ascii(name@, true);
                }
            }
            Ok(form)
        },
    }
}

/// Neither the empty identifier nor one made of separators alone is valid.
pub proof fn lemma_identifier_without_word_is_invalid(name: Seq<char>)
    requires
        forall|i: int| 0 <= i < name.len() ==> name[i] == '-',
    ensures
        !valid_identifier(name),
{
}

} // verus!
