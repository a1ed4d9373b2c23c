//! How hard a password is to guess.

use vstd::prelude::*;

use crate::text::{same, views};

verus! {

/// A number in the binary64 format of IEEE 754, as its bits.
#[derive(Clone, Copy, Debug, PartialEq, Eq, Structural)]
pub struct Float64 {
    pub bits: u64,
}

/// The bit that holds the sign.
pub const SIGN_BIT: u64 = 0x8000_0000_0000_0000;

/// The bits of positive infinity; anything above, but for the sign, is not a
/// number.
pub const INFINITY_BITS: u64 = 0x7FF0_0000_0000_0000;

/// The bits of negative infinity.
pub const NEG_INFINITY_BITS: u64 = 0xFFF0_0000_0000_0000;

impl Float64 {
    /// The bits without the sign.
    pub open spec fn magnitude(self) -> int {
        if self.bits < SIGN_BIT {
            self.bits as int
        } else {
            self.bits - SIGN_BIT
        }
    }

    /// The place in the order of all numbers; both zeros have the same.
    pub open spec fn place(self) -> int {
        if self.bits < SIGN_BIT {
            self.magnitude()
        } else {
            -self.magnitude()
        }
    }

    /// Whether this is a number.
    pub open spec fn is_number(self) -> bool {
        self.magnitude() <= INFINITY_BITS
    }

    /// Whether a number is as large as another one. Anything that is not a number
    /// is not.
    pub open spec fn is_at_least(self, other: Float64) -> bool {
        self.is_number() && other.is_number() && self.place() >= other.place()
    }

    /// Whether a number is as large as another one.
    pub fn at_least(self, other: Float64) -> (r: bool)
        ensures
            r == self.is_at_least(other),
    {
        let self_negative: bool = self.bits >= SIGN_BIT;
        let other_negative: bool = other.bits >= SIGN_BIT;
        let a: u64 = if self_negative {
            self.bits - SIGN_BIT
        } else {
            self.bits
        };
        let b: u64 = if other_negative {
            other.bits - SIGN_BIT
        } else {
            other.bits
        };
        if a > INFINITY_BITS || b > INFINITY_BITS {
            false
        } else if self_negative && other_negative {
            a <= b
        } else if self_negative {
            a == 0 && b == 0
        } else if other_negative {
            true
        } else {
            a >= b
        }
    }
}

/// How strong a password is.
#[derive(Clone, Copy, Debug, PartialEq, Eq, PartialOrd, Ord, Structural)]
pub enum PasswordStrengthRanking {
    VeryWeak,
    Weak,
    Fair,
    Strong,
    VeryStrong,
}

impl PasswordStrengthRanking {
    /// The place of the ranking, from the weakest to the strongest.
    pub open spec fn place(self) -> int {
        match self {
            PasswordStrengthRanking::VeryWeak => 0,
            PasswordStrengthRanking::Weak => 1,
            PasswordStrengthRanking::Fair => 2,
            PasswordStrengthRanking::Strong => 3,
            PasswordStrengthRanking::VeryStrong => 4,
        }
    }
}

/// What is wrong with a password.
#[derive(Clone, Copy, Debug, PartialEq, Eq, Structural)]
pub enum PasswordStrengthWarning {
    StraightRowsOfKeysAreEasyToGuess,
    ShortKeyboardPatternsAreEasyToGuess,
    RepeatsLikeAaaAreEasyToGuess,
    RepeatsLikeAbcAbcAreOnlySlightlyHarderToGuess,
    ThisIsATop10Password,
    ThisIsATop100Password,
    ThisIsACommonPassword,
    ThisIsSimilarToACommonlyUsedPassword,
    SequencesLikeAbcAreEasyToGuess,
    RecentYearsAreEasyToGuess,
    AWordByItselfIsEasyToGuess,
    DatesAreOftenEasyToGuess,
    NamesAndSurnamesByThemselvesAreEasyToGuess,
    CommonNamesAndSurnamesAreEasyToGuess,
}

/// The warning that a text stands for, if it is one.
pub open spec fn warning_of(text: Seq<char>) -> Option<PasswordStrengthWarning> {
    if text == "Straight rows of keys are easy to guess."@ {
        Some(PasswordStrengthWarning::StraightRowsOfKeysAreEasyToGuess)
    } else if text == "Short keyboard patterns are easy to guess."@ {
        Some(PasswordStrengthWarning::ShortKeyboardPatternsAreEasyToGuess)
    } else if text == "Repeats like \"aaa\" are easy to guess."@ {
        Some(PasswordStrengthWarning::RepeatsLikeAaaAreEasyToGuess)
    } else if text == "Repeats like \"abcabcabc\" are only slightly harder to guess than \"abc\"."@ {
        Some(PasswordStrengthWarning::RepeatsLikeAbcAbcAreOnlySlightlyHarderToGuess)
    } else if text == "This is a top-10 common password."@ {
        Some(PasswordStrengthWarning::ThisIsATop10Password)
    } else if text == "This is a top-100 common password."@ {
        Some(PasswordStrengthWarning::ThisIsATop100Password)
    } else if text == "This is a very common password."@ {
        Some(PasswordStrengthWarning::ThisIsACommonPassword)
    } else if text == "This is similar to a commonly used password."@ {
        Some(PasswordStrengthWarning::ThisIsSimilarToACommonlyUsedPassword)
    } else if text == "Sequences like abc or 6543 are easy to guess."@ {
        Some(PasswordStrengthWarning::SequencesLikeAbcAreEasyToGuess)
    } else if text == "Recent years are easy to guess."@ {
        Some(PasswordStrengthWarning::RecentYearsAreEasyToGuess)
    } else if text == "A word by itself is easy to guess."@ {
        Some(PasswordStrengthWarning::AWordByItselfIsEasyToGuess)
    } else if text == "Dates are often easy to guess."@ {
        Some(PasswordStrengthWarning::DatesAreOftenEasyToGuess)
    } else if text == "Names and surnames by themselves are easy to guess."@ {
        Some(PasswordStrengthWarning::NamesAndSurnamesByThemselvesAreEasyToGuess)
    } else if text == "Common names and surnames are easy to guess."@ {
        Some(PasswordStrengthWarning::CommonNamesAndSurnamesAreEasyToGuess)
    } else {
        None
    }
}

impl PasswordStrengthWarning {
    /// The warning that a text stands for, if it is one.
    pub fn from(text: &str) -> (r: Option<PasswordStrengthWarning>)
        ensures
            r == warning_of(text@),
    {
        if same(text, "Straight rows of keys are easy to guess.") {
            Some(PasswordStrengthWarning::StraightRowsOfKeysAreEasyToGuess)
        } else if same(text, "Short keyboard patterns are easy to guess.") {
            Some(PasswordStrengthWarning::ShortKeyboardPatternsAreEasyToGuess)
        } else if same(text, "Repeats like \"aaa\" are easy to guess.") {
            Some(PasswordStrengthWarning::RepeatsLikeAaaAreEasyToGuess)
        } else if same(text, "Repeats like \"abcabcabc\" are only slightly harder to guess than \"abc\".") {
            Some(PasswordStrengthWarning::RepeatsLikeAbcAbcAreOnlySlightlyHarderToGuess)
        } else if same(text, "This is a top-10 common password.") {
            Some(PasswordStrengthWarning::ThisIsATop10Password)
        } else if same(text, "This is a top-100 common password.") {
            Some(PasswordStrengthWarning::ThisIsATop100Password)
        } else if same(text, "This is a very common password.") {
            Some(PasswordStrengthWarning::ThisIsACommonPassword)
        } else if same(text, "This is similar to a commonly used password.") {
            Some(PasswordStrengthWarning::ThisIsSimilarToACommonlyUsedPassword)
        } else if same(text, "Sequences like abc or 6543 are easy to guess.") {
            Some(PasswordStrengthWarning::SequencesLikeAbcAreEasyToGuess)
        } else if same(text, "Recent years are easy to guess.") {
            Some(PasswordStrengthWarning::RecentYearsAreEasyToGuess)
        } else if same(text, "A word by itself is easy to guess.") {
            Some(PasswordStrengthWarning::AWordByItselfIsEasyToGuess)
        } else if same(text, "Dates are often easy to guess.") {
            Some(PasswordStrengthWarning::DatesAreOftenEasyToGuess)
        } else if same(text, "Names and surnames by themselves are easy to guess.") {
            Some(PasswordStrengthWarning::NamesAndSurnamesByThemselvesAreEasyToGuess)
        } else if same(text, "Common names and surnames are easy to guess.") {
            Some(PasswordStrengthWarning::CommonNamesAndSurnamesAreEasyToGuess)
        } else {
            None
        }
    }
}

/// What would make a password stronger.
#[derive(Clone, Copy, Debug, PartialEq, Eq, Structural)]
pub enum PasswordStrengthSuggestion {
    UseAFewWordsAvoidCommonPhrases,
    NoNeedForSymbolsDigitsOrUppercaseLetters,
    AddAnotherWordOrTwo,
    CapitalizationDoesntHelpVeryMuch,
    AllUppercaseIsAlmostAsEasyToGuessAsAllLowercase,
    ReversedWordsArentMuchHarderToGuess,
    PredictableSubstitutionsDontHelpVeryMuch,
    UseALongerKeyboardPatternWithMoreTurns,
    AvoidRepeatedWordsAndCharacters,
    AvoidSequences,
    AvoidRecentYears,
    AvoidYearsThatAreAssociatedWithYou,
    AvoidDatesAndYearsThatAreAssociatedWithYou,
}

/// The suggestion that a text stands for, if it is one.
pub open spec fn suggestion_of(text: Seq<char>) -> Option<PasswordStrengthSuggestion> {
    if text == "Use a few words, avoid common phrases."@ {
        Some(PasswordStrengthSuggestion::UseAFewWordsAvoidCommonPhrases)
    } else if text == "No need for symbols, digits, or uppercase letters."@ {
        Some(PasswordStrengthSuggestion::NoNeedForSymbolsDigitsOrUppercaseLetters)
    } else if text == "Add another word or two. Uncommon words are better."@ {
        Some(PasswordStrengthSuggestion::AddAnotherWordOrTwo)
    } else if text == "Capitalization doesn't help very much."@ {
        Some(PasswordStrengthSuggestion::CapitalizationDoesntHelpVeryMuch)
    } else if text == "All-uppercase is almost as easy to guess as all-lowercase."@ {
        Some(PasswordStrengthSuggestion::AllUppercaseIsAlmostAsEasyToGuessAsAllLowercase)
    } else if text == "Reversed words aren't much harder to guess."@ {
        Some(PasswordStrengthSuggestion::ReversedWordsArentMuchHarderToGuess)
    } else if text == "Predictable substitutions like '@' instead of 'a' don't help very much."@ {
        Some(PasswordStrengthSuggestion::PredictableSubstitutionsDontHelpVeryMuch)
    } else if text == "Use a longer keyboard pattern with more turns."@ {
        Some(PasswordStrengthSuggestion::UseALongerKeyboardPatternWithMoreTurns)
    } else if text == "Avoid repeated words and characters."@ {
        Some(PasswordStrengthSuggestion::AvoidRepeatedWordsAndCharacters)
    } else if text == "Avoid sequences."@ {
        Some(PasswordStrengthSuggestion::AvoidSequences)
    } else if text == "Avoid recent years."@ {
        Some(PasswordStrengthSuggestion::AvoidRecentYears)
    } else if text == "Avoid years that are associated with you."@ {
        Some(PasswordStrengthSuggestion::AvoidYearsThatAreAssociatedWithYou)
    } else if text == "Avoid dates and years that are associated with you."@ {
        Some(PasswordStrengthSuggestion::AvoidDatesAndYearsThatAreAssociatedWithYou)
    } else {
        None
    }
}

impl PasswordStrengthSuggestion {
    /// The suggestion that a text stands for, if it is one.
    pub fn from(text: &str) -> (r: Option<PasswordStrengthSuggestion>)
        ensures
            r == suggestion_of(text@),
    {
        if same(text, "Use a few words, avoid common phrases.") {
            Some(PasswordStrengthSuggestion::UseAFewWordsAvoidCommonPhrases)
        } else if same(text, "No need for symbols, digits, or uppercase letters.") {
            Some(PasswordStrengthSuggestion::NoNeedForSymbolsDigitsOrUppercaseLetters)
        } else if same(text, "Add another word or two. Uncommon words are better.") {
            Some(PasswordStrengthSuggestion::AddAnotherWordOrTwo)
        } else if same(text, "Capitalization doesn't help very much.") {
            Some(PasswordStrengthSuggestion::CapitalizationDoesntHelpVeryMuch)
        } else if same(text, "All-uppercase is almost as easy to guess as all-lowercase.") {
            Some(PasswordStrengthSuggestion::AllUppercaseIsAlmostAsEasyToGuessAsAllLowercase)
        } else if same(text, "Reversed words aren't much harder to guess.") {
            Some(PasswordStrengthSuggestion::ReversedWordsArentMuchHarderToGuess)
        } else if same(text, "Predictable substitutions like '@' instead of 'a' don't help very much.") {
            Some(PasswordStrengthSuggestion::PredictableSubstitutionsDontHelpVeryMuch)
        } else if same(text, "Use a longer keyboard pattern with more turns.") {
            Some(PasswordStrengthSuggestion::UseALongerKeyboardPatternWithMoreTurns)
        } else if same(text, "Avoid repeated words and characters.") {
            Some(PasswordStrengthSuggestion::AvoidRepeatedWordsAndCharacters)
        } else if same(text, "Avoid sequences.") {
            Some(PasswordStrengthSuggestion::AvoidSequences)
        } else if same(text, "Avoid recent years.") {
            Some(PasswordStrengthSuggestion::AvoidRecentYears)
        } else if same(text, "Avoid years that are associated with you.") {
            Some(PasswordStrengthSuggestion::AvoidYearsThatAreAssociatedWithYou)
        } else if same(text, "Avoid dates and years that are associated with you.") {
            Some(PasswordStrengthSuggestion::AvoidDatesAndYearsThatAreAssociatedWithYou)
        } else {
            None
        }
    }
}

/// What to tell a user who should choose a stronger password.
pub struct PasswordStrengthFeedback {
    /// What is wrong with the password, if that is known.
    pub warning: Option<PasswordStrengthWarning>,
    /// What would make it stronger.
    pub suggestions: Vec<PasswordStrengthSuggestion>,
}

/// How strong a password is.
pub struct PasswordStrengthEstimate {
    /// The ranking, from `VeryWeak` to `VeryStrong`.
    pub ranking: PasswordStrengthRanking,
    /// How many guesses it takes to find the password.
    pub guesses: u64,
    /// The decimal logarithm of the number of guesses.
    pub score: Float64,
    /// What to tell the user. Only set when the ranking is Fair or below.
    pub feedback: Option<PasswordStrengthFeedback>,
}

/// The score that each ranking takes at least. A score below `weak` is ranked
/// `VeryWeak`.
#[derive(Clone, Copy)]
pub struct PasswordStrengthThresholds {
    pub weak: Float64,
    pub fair: Float64,
    pub strong: Float64,
    pub very_strong: Float64,
}

/// The ranking of a score: the highest whose threshold it reaches.
pub open spec fn ranking_of(
    thresholds: PasswordStrengthThresholds,
    score: Float64,
) -> PasswordStrengthRanking {
    if score.is_at_least(thresholds.very_strong) {
        PasswordStrengthRanking::VeryStrong
    } else if score.is_at_least(thresholds.strong) {
        PasswordStrengthRanking::Strong
    } else if score.is_at_least(thresholds.fair) {
        PasswordStrengthRanking::Fair
    } else if score.is_at_least(thresholds.weak) {
        PasswordStrengthRanking::Weak
    } else {
        PasswordStrengthRanking::VeryWeak
    }
}

impl PasswordStrengthThresholds {
    /// The ranking of a score.
    pub fn ranking_for_score(&self, score: Float64) -> (r: PasswordStrengthRanking)
        ensures
            r == ranking_of(*self, score),
    {
        if score.at_least(self.very_strong) {
            PasswordStrengthRanking::VeryStrong
        } else if score.at_least(self.strong) {
            PasswordStrengthRanking::Strong
        } else if score.at_least(self.fair) {
            PasswordStrengthRanking::Fair
        } else if score.at_least(self.weak) {
            PasswordStrengthRanking::Weak
        } else {
            PasswordStrengthRanking::VeryWeak
        }
    }
}

/// What is known of how hard a password is to guess.
pub struct PasswordEntropy {
    /// How many guesses it takes to find the password.
    pub guesses: u64,
    /// The decimal logarithm of the number of guesses, as its bits.
    pub score_bits: u64,
    /// The text of a warning, if there is one, and the texts of suggestions.
    pub feedback: Option<(Option<String>, Vec<String>)>,
}

/// What is known of how hard a password is to guess: how many guesses it takes, the
/// bits of the decimal logarithm of that number, and the texts of a warning and of
/// suggestions, where there are any.
pub type Outcome = (u64, u64, Option<(Option<Seq<char>>, Seq<Seq<char>>)>);

impl PasswordEntropy {
    /// What is known, as plain values.
    pub open spec fn outcome(self) -> Outcome {
        (
            self.guesses,
            self.score_bits,
            match self.feedback {
                Some((Some(warning), suggestions)) => Some(
                    (Some(warning@), views(suggestions@)),
                ),
                Some((None, suggestions)) => Some((None, views(suggestions@))),
                None => None,
            },
        )
    }
}

/// How much of a password is looked at: its first hundred characters.
pub open spec fn evaluated(password: Seq<char>) -> Seq<char> {
    if password.len() <= EVALUATED_CHARS {
        password
    } else {
        password.take(EVALUATED_CHARS as int)
    }
}

/// The number of characters of a password that are looked at.
pub const EVALUATED_CHARS: usize = 100;

/// The greatest number of pieces of a password whose orders can be counted: its
/// factorial fits in a `usize`.
pub open spec fn max_pieces() -> int {
    if usize::MAX > u32::MAX {
        20
    } else {
        12
    }
}

/// The greatest number of characters in a row among which a walk over the keys of a
/// keyboard, or a user input in any spelling, is short enough to be counted.
pub const MAX_WALK: usize = 32;

/// The same for a walk over the keys of a keypad.
pub const MAX_KEYPAD_WALK: usize = 28;

/// The only letter that is longer in lower case, an `i` with a dot.
pub const DOTTED_I: char = '\u{130}';

/// Whether the character stands for the word of one letter that the lists of common
/// words hold, as itself or in its place.
pub open spec fn reads_as_i(c: char) -> bool {
    c == 'i' || c == 'I' || c == '1' || c == '!' || c == '|' || c == DOTTED_I
}

/// Whether the character is on the keypad of a keyboard.
pub open spec fn on_keypad(c: char) -> bool {
    ('0' <= c && c <= '9') || c == '.' || c == '/' || c == '*' || c == '-' || c == '+' || c == '='
}

/// The number of characters of a text that are on the keypad.
pub open spec fn keypad_count(text: Seq<char>) -> nat
    decreases text.len(),
{
    if text.len() == 0 {
        0
    } else {
        keypad_count(text.drop_last()) + if on_keypad(text.last()) {
            1nat
        } else {
            0
        }
    }
}

/// The number of characters of a text that stand for a word of one letter.
pub open spec fn one_letter_words(text: Seq<char>) -> nat
    decreases text.len(),
{
    if text.len() == 0 {
        0
    } else {
        one_letter_words(text.drop_last()) + if reads_as_i(text.last()) {
            1nat
        } else {
            0
        }
    }
}

/// How often the letter that is longer in lower case stands in a text.
pub open spec fn dotted_count(text: Seq<char>) -> nat
    decreases text.len(),
{
    if text.len() == 0 {
        0
    } else {
        dotted_count(text.drop_last()) + if text.last() == DOTTED_I {
            1nat
        } else {
            0
        }
    }
}

/// Whether a password is short enough as a whole: a walk over the keys can be counted,
/// and the pieces of two characters or more, or of one letter, are not too many. Where
/// lower case shifts letters, words of one letter may be found forwards and backwards.
pub open spec fn is_short(text: Seq<char>) -> bool {
    let words = if dotted_count(text) > 0 {
        2 * one_letter_words(text)
    } else {
        one_letter_words(text)
    };
    &&& text.len() <= MAX_WALK
    &&& keypad_count(text) <= MAX_KEYPAD_WALK
    &&& text.len() + words <= 2 * max_pieces() - 5
}

/// Whether the character is one that common words do not hold, in no spelling: a space,
/// one of a few signs, or a character beyond ASCII, but for the sign for kelvin, whose
/// lower case is a letter of ASCII. The hyphen is among them, though a few words hold it.
pub open spec fn is_break_char(c: char) -> bool {
    c == ' ' || c == '"' || c == '#' || c == '&' || c == ')' || c == ',' || c == '-' || c == ':'
        || c == '>' || c == '\\' || c == '^' || c == '}' || c == '~' || (c > '\u{7f}' && c
        != '\u{212a}')
}

/// Whether the character is a letter of ASCII.
pub open spec fn is_ascii_letter(c: char) -> bool {
    ('a' <= c && c <= 'z') || ('A' <= c && c <= 'Z')
}

/// A letter of ASCII in lower case.
pub open spec fn folded(c: char) -> char {
    if 'A' <= c && c <= 'Z' {
        ((c as u32 + 32) as u8) as char
    } else {
        c
    }
}

/// Whether two characters are these two, in either order.
pub open spec fn is_pair(a: char, b: char, x: char, y: char) -> bool {
    (a == x && b == y) || (a == y && b == x)
}

/// Whether a common word, forwards or backwards, has a hyphen between these letters, as
/// in `hip-hop`.
pub open spec fn is_hyphenated(a: char, b: char) -> bool {
    is_pair(a, b, 'a', 'd') || is_pair(a, b, 'a', 'e') || is_pair(a, b, 'a', 'f') || is_pair(
        a,
        b,
        'a',
        'h',
    ) || is_pair(a, b, 'a', 'k') || is_pair(a, b, 'a', 'o') || is_pair(a, b, 'a', 'r') || is_pair(
        a,
        b,
        'c',
        'e',
    ) || is_pair(a, b, 'c', 'l') || is_pair(a, b, 'd', 'p') || is_pair(a, b, 'd', 's') || is_pair(
        a,
        b,
        'e',
        'o',
    ) || is_pair(a, b, 'e', 'p') || is_pair(a, b, 'e', 'u') || is_pair(a, b, 'f', 't') || is_pair(
        a,
        b,
        'h',
        'p',
    ) || is_pair(a, b, 'p', 't') || is_pair(a, b, 't', 't')
}

/// Whether the hyphen at a place of a text is part of no common word: it stands between
/// two letters between which no common word has one.
pub open spec fn is_free_hyphen(text: Seq<char>, k: int) -> bool {
    &&& 0 < k && k + 1 < text.len()
    &&& is_ascii_letter(text[k - 1]) && is_ascii_letter(text[k + 1])
    &&& !is_hyphenated(folded(text[k - 1]), folded(text[k + 1]))
}

/// Whether the character is part of a user input, in some spelling; one beyond ASCII is
/// taken to be where any such character is.
pub open spec fn occurs_in(input: Seq<char>, c: char) -> bool {
    exists|j: int|
        0 <= j < input.len() && (#[trigger] input[j] == c || (c > '\u{7f}' && input[j] > '\u{7f}'))
}

/// The characters of the keys next to that of a sign, on the QWERTY and Dvorak
/// layouts and on keypads.
pub open spec fn keys_next_to(c: char) -> Seq<char> {
    if c == '"' {
        "!,/12:;<?@A[]a{}"@
    } else if c == '#' {
        "$,.24<>@EWew"@
    } else if c == '&' {
        "*68FGUY^fguy"@
    } else if c == ')' {
        "(-9LOPR[_lopr{"@
    } else if c == ',' {
        "\"#'.23>@AKLMOaklmo"@
    } else if c == '-' {
        ")*+/069=?PSZ[psz{"@
    } else if c == ':' {
        "\"'./>?ALOPQ[alopq{"@
    } else if c == '>' {
        "#$,/34:;<?ELOPelop"@
    } else if c == '\\' {
        "+=]}"@
    } else if c == '^' {
        "%&57FTYfty"@
    } else if c == '}' {
        "\"'+/=?[\\{|"@
    } else if c == '~' {
        "!1"@
    } else {
        Seq::empty()
    }
}

/// Whether a character and one next to it are part of no sequence of characters and of
/// no walk over the keys.
pub open spec fn are_apart(c: char, d: char) -> bool {
    (c as int - d as int > 5 || d as int - c as int > 5) && !keys_next_to(c).contains(d)
}

/// Whether the character is a digit.
pub open spec fn is_ascii_digit(c: char) -> bool {
    '0' <= c && c <= '9'
}

/// Whether the text repeats itself from a place on, after so many characters.
pub open spec fn repeats_at(text: Seq<char>, start: int, len: int) -> bool {
    &&& 0 <= start
    &&& 1 <= len
    &&& start + 2 * len <= text.len()
    &&& forall|j: int| start <= j < start + len ==> #[trigger] text[j] == text[j + len]
}

/// Whether the character at a place of a text breaks it: it is part of no word, no user
/// input, no walk over the keys, no sequence, no date and no repetition.
pub open spec fn is_break(text: Seq<char>, user_inputs: Seq<Seq<char>>, k: int) -> bool {
    &&& is_break_char(text[k])
    &&& text[k] == '-' ==> is_free_hyphen(text, k)
    &&& forall|i: int|
        0 <= i < user_inputs.len() ==> !occurs_in(#[trigger] user_inputs[i], text[k])
    &&& k > 0 ==> are_apart(text[k], text[k - 1])
    &&& k + 1 < text.len() ==> are_apart(text[k], text[k + 1])
    &&& 0 < k && k + 1 < text.len() ==> !(is_ascii_digit(text[k - 1]) && is_ascii_digit(text[k + 1]))
    &&& forall|start: int, len: int| #[trigger]
        repeats_at(text, start, len) ==> !(start <= k < start + 2 * len)
}

/// How long the stretch without a break is that ends before a place of a text. What
/// stands for a word of one letter counts twice.
pub open spec fn stretch(text: Seq<char>, user_inputs: Seq<Seq<char>>, k: int) -> int
    decreases k,
{
    if k <= 0 || is_break(text, user_inputs, k - 1) {
        0
    } else {
        stretch(text, user_inputs, k - 1) + if reads_as_i(text[k - 1]) {
            2int
        } else {
            1
        }
    }
}

/// The greatest length of a stretch that surely falls into few enough pieces.
pub open spec fn max_stretch() -> int {
    2 * (max_pieces() - 6)
}

/// Whether all stretches of a text without a break are short.
pub open spec fn has_short_stretches(text: Seq<char>, user_inputs: Seq<Seq<char>>) -> bool {
    forall|k: int|
        0 <= k <= text.len() ==> #[trigger] stretch(text, user_inputs, k) <= max_stretch()
}

/// The greatest number of spellings of a word: each of its characters may be written as
/// it is, as a capital, or as a sign in its place.
pub open spec fn spellings(len: nat) -> nat
    decreases len,
{
    if len == 0 {
        1
    } else {
        3 * spellings((len - 1) as nat)
    }
}

/// Whether the guesses for a user input at a place of the list, forwards and backwards,
/// can be counted where it occurs in a text of a length. One that is longer than the
/// text, or than anything without a break, does not occur.
pub open spec fn input_fits(text_len: nat, input: Seq<char>, place: int) -> bool {
    let len = input.len() + dotted_count(input);
    len > text_len || len > MAX_WALK || 2 * place * spellings(len) <= u64::MAX
}

/// Whether the guesses for a password can surely be counted without exceeding the
/// integers that they are counted with. A password of few characters can. A longer one
/// must not fall into too many pieces, nor hold a long walk over the keys: as a whole,
/// or between the characters that break it.
pub open spec fn is_countable(password: Seq<char>, user_inputs: Seq<Seq<char>>) -> bool {
    let text = evaluated(password);
    &&& forall|i: int|
        0 <= i < user_inputs.len() ==> input_fits(text.len(), #[trigger] user_inputs[i], i + 1)
    &&& text.len() <= max_pieces() || {
        &&& forall|i: int| 0 <= i < user_inputs.len() ==> (#[trigger] user_inputs[i]).len() != 1
        &&& is_short(text) || (dotted_count(text) == 0 && has_short_stretches(text, user_inputs))
    }
}

/// What comes out for a password under given circumstances: the year, the order in
/// which hash maps are walked, and the precision of logarithms. The number only tells
/// circumstances apart.
pub uninterp spec fn zxcvbn_outcome(
    password: Seq<char>,
    user_inputs: Seq<Seq<char>>,
    circumstances: int,
) -> (u64, u64, Option<(Option<Seq<char>>, Seq<Seq<char>>)>);

/// `zxcvbn::zxcvbn`. Claimed: what comes out depends on the password, the user inputs
/// and the circumstances of the call alone; an empty password takes no guess, the
/// logarithm of which is negative infinity, and feedback is given on it; any other
/// takes a guess at least, and the logarithm is a number; no feedback is given only on
/// a password that takes more than a hundred million guesses. What the circumstances
/// are is left unsaid.
///
/// The function multiplies and adds with plain operators in four places, which panic
/// on overflow where that is checked. What is asked of the arguments keeps each of them
/// in range.
/// - The factorial of a number of pieces. A sequence of more than five pieces is only
///   kept behind a run of adjacent matches, each of two characters or more but for the
///   letter `i`, what stands for it, and user inputs of one character. No match holds a
///   character that breaks the text, so that a run ends before it. Whether a run makes
///   such sequences depends on the order in which hash maps are walked.
/// - The power of the average number of neighbours of a key, which is 4, or 5 on a
///   keypad: a walk of 32 keys makes 31 turns, one of 28 keys on a keypad makes 27.
/// - The sums over mixed cases: they count subsets of at most 32 characters.
/// - The product for a word: its place in its list, times its spellings, times two if it
///   is reversed. The words of the lists have 23 characters at most, and 30000 places.
#[verifier::external_body]
fn entropy_of(password: &str, user_inputs: &Vec<String>) -> (r: PasswordEntropy)
    requires
        is_countable(password@, views(user_inputs@)),
    ensures
        exists|circumstances: int|
            r.outcome() == #[trigger] zxcvbn_outcome(
                password@,
                views(user_inputs@),
                circumstances,
            ),
        password@.len() == 0 ==> r.guesses == 0 && r.score_bits == NEG_INFINITY_BITS
            && r.feedback is Some,
        password@.len() > 0 ==> r.guesses >= 1 && (Float64 { bits: r.score_bits }).is_number(),
        r.feedback is None ==> r.guesses > 100_000_000,
{
    let inputs: Vec<&str> = user_inputs.iter().map(String::as_str).collect();
    let entropy = zxcvbn::zxcvbn(password, &inputs);
    let feedback = entropy.feedback().map(|f| {
        let suggestions = f.suggestions().iter().map(|s| s.to_string()).collect();
        (f.warning().map(|w| w.to_string()), suggestions)
    });
    PasswordEntropy {
        guesses: entropy.guesses(),
        score_bits: entropy.guesses_log10().to_bits(),
        feedback,
    }
}

/// The suggestions that texts stand for, in their order.
pub open spec fn suggestions_of(texts: Seq<Seq<char>>) -> Seq<PasswordStrengthSuggestion>
    decreases texts.len(),
{
    if texts.len() == 0 {
        Seq::empty()
    } else {
        let rest = suggestions_of(texts.drop_last());
        match suggestion_of(texts.last()) {
            Some(suggestion) => rest.push(suggestion),
            None => rest,
        }
    }
}

/// The suggestions that texts stand for, in their order.
fn read_suggestions(texts: &Vec<String>) -> (r: Vec<PasswordStrengthSuggestion>)
    ensures
        r@ == suggestions_of(views(texts@)),
{
    let mut out: Vec<PasswordStrengthSuggestion> = Vec::new();
    let mut i: usize = 0;
    while i < texts.len()
        invariant
            i <= texts.len(),
            out@ == suggestions_of(views(texts@).take(i as int)),
        decreases texts.len() - i,
    {
        proof {
            let next = views(texts@).take(i as int + 1);
            assert(next.drop_last() =~= views(texts@).take(i as int));
            assert(next.last() == texts@[i as int]@);
        }
        if let Some(suggestion) = PasswordStrengthSuggestion::from(texts[i].as_str()) {
            out.push(suggestion);
        }
        i = i + 1;
    }
    proof {
        assert(views(texts@).take(i as int) =~= views(texts@));
    }
    out
}

/// The estimate for a password of which this much is known.
pub open spec fn estimate_of(
    thresholds: PasswordStrengthThresholds,
    outcome: Outcome,
    r: PasswordStrengthEstimate,
) -> bool {
    &&& r.guesses == outcome.0
    &&& r.score.bits == outcome.1
    &&& r.ranking == ranking_of(thresholds, r.score)
    &&& r.feedback is Some <==> outcome.2 is Some && r.ranking.place()
        <= PasswordStrengthRanking::Fair.place()
    &&& r.feedback matches Some(feedback) ==> {
        &&& feedback.warning == (match (outcome.2->0).0 {
            Some(text) => warning_of(text),
            None => None,
        })
        &&& feedback.suggestions@ == suggestions_of((outcome.2->0).1)
    }
}

/// The characters of a password that are looked at.
fn evaluated_chars(password: &str) -> (r: Vec<char>)
    ensures
        r@ == evaluated(password@),
{
    let all: usize = password.unicode_len();
    let n: usize = if all <= EVALUATED_CHARS {
        all
    } else {
        EVALUATED_CHARS
    };
    let mut chars: Vec<char> = Vec::new();
    let mut i: usize = 0;
    while i < n
        invariant
            i <= n <= password@.len(),
            chars@ =~= password@.take(i as int),
        decreases n - i,
    {
        chars.push(password.get_char(i));
        i = i + 1;
    }
    assert(password@.take(password@.len() as int) =~= password@);
    chars
}

/// Whether a text holds a character.
fn has_char(text: &str, c: char) -> (r: bool)
    ensures
        r == text@.contains(c),
{
    let n: usize = text.unicode_len();
    let mut i: usize = 0;
    while i < n
        invariant
            i <= n,
            n == text@.len(),
            forall|j: int| 0 <= j < i ==> text@[j] != c,
        decreases n - i,
    {
        if text.get_char(i) == c {
            assert(text@[i as int] == c);
            return true;
        }
        i = i + 1;
    }
    false
}

/// The characters of the keys next to that of a sign.
fn next_keys(c: char) -> (r: &'static str)
    ensures
        r@ == keys_next_to(c),
{
    if c == '"' {
        "!,/12:;<?@A[]a{}"
    } else if c == '#' {
        "$,.24<>@EWew"
    } else if c == '&' {
        "*68FGUY^fguy"
    } else if c == ')' {
        "(-9LOPR[_lopr{"
    } else if c == ',' {
        "\"#'.23>@AKLMOaklmo"
    } else if c == '-' {
        ")*+/069=?PSZ[psz{"
    } else if c == ':' {
        "\"'./>?ALOPQ[alopq{"
    } else if c == '>' {
        "#$,/34:;<?ELOPelop"
    } else if c == '\\' {
        "+=]}"
    } else if c == '^' {
        "%&57FTYfty"
    } else if c == '}' {
        "\"'+/=?[\\{|"
    } else if c == '~' {
        "!1"
    } else {
        proof {
            reveal_strlit("");
        }
        assert(""@ =~= Seq::<char>::empty());
        ""
    }
}

/// Whether a character and one next to it are part of no pattern.
fn apart(c: char, d: char) -> (r: bool)
    ensures
        r == are_apart(c, d),
{
    let x: u32 = c as u32;
    let y: u32 = d as u32;
    let distance: u32 = if x > y {
        x - y
    } else {
        y - x
    };
    distance > 5 && !has_char(next_keys(c), d)
}

/// Whether the character is one that common words do not hold.
fn may_break(c: char) -> (r: bool)
    ensures
        r == is_break_char(c),
{
    c == ' ' || c == '"' || c == '#' || c == '&' || c == ')' || c == ',' || c == '-' || c == ':'
        || c == '>' || c == '\\' || c == '^' || c == '}' || c == '~' || (c > '\u{7f}' && c
        != '\u{212a}')
}

/// Whether the character is a letter of ASCII.
fn ascii_letter(c: char) -> (r: bool)
    ensures
        r == is_ascii_letter(c),
{
    ('a' <= c && c <= 'z') || ('A' <= c && c <= 'Z')
}

/// A letter of ASCII in lower case.
fn fold(c: char) -> (r: char)
    ensures
        r == folded(c),
{
    if 'A' <= c && c <= 'Z' {
        (c as u32 + 32) as u8 as char
    } else {
        c
    }
}

/// Whether two characters are these two, in either order.
fn pair(a: char, b: char, x: char, y: char) -> (r: bool)
    ensures
        r == is_pair(a, b, x, y),
{
    (a == x && b == y) || (a == y && b == x)
}

/// Whether a common word has a hyphen between these letters.
fn hyphenated(a: char, b: char) -> (r: bool)
    ensures
        r == is_hyphenated(a, b),
{
    pair(a, b, 'a', 'd') || pair(a, b, 'a', 'e') || pair(a, b, 'a', 'f') || pair(a, b, 'a', 'h')
        || pair(a, b, 'a', 'k') || pair(a, b, 'a', 'o') || pair(a, b, 'a', 'r') || pair(
        a,
        b,
        'c',
        'e',
    ) || pair(a, b, 'c', 'l') || pair(a, b, 'd', 'p') || pair(a, b, 'd', 's') || pair(
        a,
        b,
        'e',
        'o',
    ) || pair(a, b, 'e', 'p') || pair(a, b, 'e', 'u') || pair(a, b, 'f', 't') || pair(
        a,
        b,
        'h',
        'p',
    ) || pair(a, b, 'p', 't') || pair(a, b, 't', 't')
}

/// Whether the hyphen at a place of a text is part of no common word.
fn free_hyphen(text: &Vec<char>, k: usize) -> (r: bool)
    requires
        k < text@.len() <= EVALUATED_CHARS,
    ensures
        r == is_free_hyphen(text@, k as int),
{
    if k == 0 || k + 1 >= text.len() {
        return false;
    }
    let before: char = text[k - 1];
    let after: char = text[k + 1];
    ascii_letter(before) && ascii_letter(after) && !hyphenated(fold(before), fold(after))
}

/// Whether the character is part of a user input.
fn occurs(input: &str, c: char) -> (r: bool)
    ensures
        r == occurs_in(input@, c),
{
    let n: usize = input.unicode_len();
    let mut i: usize = 0;
    while i < n
        invariant
            i <= n,
            n == input@.len(),
            forall|j: int|
                0 <= j < i ==> !(#[trigger] input@[j] == c || (c > '\u{7f}' && input@[j]
                    > '\u{7f}')),
        decreases n - i,
    {
        let d: char = input.get_char(i);
        if d == c || (c > '\u{7f}' && d > '\u{7f}') {
            assert(input@[i as int] == d);
            return true;
        }
        i = i + 1;
    }
    false
}

/// Whether the character is part of one of the user inputs.
fn occurs_in_any(user_inputs: &Vec<String>, c: char) -> (r: bool)
    ensures
        r == exists|i: int|
            0 <= i < user_inputs@.len() && occurs_in(#[trigger] views(user_inputs@)[i], c),
{
    let mut i: usize = 0;
    while i < user_inputs.len()
        invariant
            i <= user_inputs@.len(),
            forall|k: int| 0 <= k < i ==> !occurs_in(#[trigger] views(user_inputs@)[k], c),
        decreases user_inputs@.len() - i,
    {
        assert(views(user_inputs@)[i as int] == user_inputs@[i as int]@);
        if occurs(user_inputs[i].as_str(), c) {
            return true;
        }
        i = i + 1;
    }
    false
}

/// Whether the text repeats itself from a place on, after so many characters.
fn repeats(text: &Vec<char>, start: usize, len: usize) -> (r: bool)
    requires
        1 <= len,
        start + 2 * len <= text@.len() <= EVALUATED_CHARS,
    ensures
        r == repeats_at(text@, start as int, len as int),
{
    let mut j: usize = start;
    while j < start + len
        invariant
            start <= j <= start + len,
            start + 2 * len <= text@.len() <= EVALUATED_CHARS,
            forall|i: int| start <= i < j ==> #[trigger] text@[i] == text@[i + len],
        decreases start + len - j,
    {
        if text[j] != text[j + len] {
            assert(text@[j as int] != text@[j + len]);
            return false;
        }
        j = j + 1;
    }
    true
}

/// Whether the character at a place is part of a repetition.
fn in_repetition(text: &Vec<char>, k: usize) -> (r: bool)
    requires
        k < text@.len() <= EVALUATED_CHARS,
    ensures
        r == exists|start: int, len: int| #[trigger]
            repeats_at(text@, start, len) && start <= k < start + 2 * len,
{
    let n: usize = text.len();
    let mut len: usize = 1;
    while 2 * len <= n
        invariant
            n == text@.len(),
            n <= EVALUATED_CHARS,
            k < n,
            1 <= len <= n + 1,
            forall|s: int, l: int| #[trigger]
                repeats_at(text@, s, l) && l < len ==> !(s <= k < s + 2 * l),
        decreases n + 1 - len,
    {
        let mut start: usize = 0;
        while start + 2 * len <= n
            invariant
                n == text@.len(),
                n <= EVALUATED_CHARS,
                k < n,
                start <= n,
                1 <= len <= n,
                forall|s: int, l: int| #[trigger]
                    repeats_at(text@, s, l) && l < len ==> !(s <= k < s + 2 * l),
                forall|s: int| #[trigger]
                    repeats_at(text@, s, len as int) && s < start ==> !(s <= k < s + 2 * len),
            decreases n - start,
        {
            if start <= k && k < start + 2 * len && repeats(text, start, len) {
                assert(repeats_at(text@, start as int, len as int));
                return true;
            }
            start = start + 1;
        }
        len = len + 1;
    }
    false
}

/// Whether the character at a place of a text breaks it.
fn breaks(text: &Vec<char>, user_inputs: &Vec<String>, k: usize) -> (r: bool)
    requires
        k < text@.len() <= EVALUATED_CHARS,
    ensures
        r == is_break(text@, views(user_inputs@), k as int),
{
    let c: char = text[k];
    if !may_break(c) || (c == '-' && !free_hyphen(text, k)) {
        return false;
    }
    if k > 0 && !apart(c, text[k - 1]) {
        return false;
    }
    if k + 1 < text.len() && !apart(c, text[k + 1]) {
        return false;
    }
    if k > 0 && k + 1 < text.len() {
        let before: char = text[k - 1];
        let after: char = text[k + 1];
        if '0' <= before && before <= '9' && '0' <= after && after <= '9' {
            return false;
        }
    }
    !in_repetition(text, k) && !occurs_in_any(user_inputs, c)
}

/// The greatest number of pieces of a password whose orders can be counted.
fn most_pieces() -> (r: usize)
    ensures
        r == max_pieces(),
{
    if usize::MAX > 0xFFFF_FFFF {
        20
    } else {
        12
    }
}

/// Whether all stretches of a text without a break are short.
fn short_stretches(text: &Vec<char>, user_inputs: &Vec<String>) -> (r: bool)
    requires
        text@.len() <= EVALUATED_CHARS,
    ensures
        r == has_short_stretches(text@, views(user_inputs@)),
{
    let most: usize = 2 * (most_pieces() - 6);
    let mut length: usize = 0;
    let mut i: usize = 0;
    while i < text.len()
        invariant
            i <= text@.len() <= EVALUATED_CHARS,
            most == max_stretch(),
            most <= 28,
            length == stretch(text@, views(user_inputs@), i as int),
            length <= most,
            forall|k: int| 0 <= k <= i ==> #[trigger] stretch(text@, views(user_inputs@), k) <= most,
        decreases text@.len() - i,
    {
        let c: char = text[i];
        if breaks(text, user_inputs, i) {
            length = 0;
        } else if c == 'i' || c == 'I' || c == '1' || c == '!' || c == '|' || c == DOTTED_I {
            length = length + 2;
        } else {
            length = length + 1;
        }
        i = i + 1;
        assert(length == stretch(text@, views(user_inputs@), i as int));
        if length > most {
            return false;
        }
    }
    true
}

/// Whether a password is short enough as a whole, and whether it holds the letter that
/// is longer in lower case.
fn short_and_dotted(text: &Vec<char>) -> (r: (bool, bool))
    requires
        text@.len() <= EVALUATED_CHARS,
    ensures
        r.0 == is_short(text@),
        r.1 == (dotted_count(text@) > 0),
{
    let n: usize = text.len();
    let mut keypad: usize = 0;
    let mut words: usize = 0;
    let mut dotted: usize = 0;
    let mut i: usize = 0;
    while i < n
        invariant
            i <= n <= EVALUATED_CHARS,
            n == text@.len(),
            keypad <= i,
            words <= i,
            dotted <= i,
            keypad == keypad_count(text@.take(i as int)),
            words == one_letter_words(text@.take(i as int)),
            dotted == dotted_count(text@.take(i as int)),
        decreases n - i,
    {
        let c: char = text[i];
        proof {
            let next = text@.take(i as int + 1);
            assert(next.drop_last() =~= text@.take(i as int));
            assert(next.last() == c);
        }
        if ('0' <= c && c <= '9') || c == '.' || c == '/' || c == '*' || c == '-' || c == '+' || c
            == '=' {
            keypad = keypad + 1;
        }
        if c == 'i' || c == 'I' || c == '1' || c == '!' || c == '|' || c == DOTTED_I {
            words = words + 1;
        }
        if c == DOTTED_I {
            dotted = dotted + 1;
        }
        i = i + 1;
    }
    assert(text@.take(n as int) =~= text@);
    if dotted > 0 {
        words = 2 * words;
    }
    let short: bool = n <= MAX_WALK && keypad <= MAX_KEYPAD_WALK && n + words <= 2 * most_pieces()
        - 5;
    (short, dotted > 0)
}

/// Whether the guesses for a user input at a place of the list can be counted.
fn fits(text_len: usize, input: &str, place: usize) -> (r: bool)
    ensures
        r == input_fits(text_len as nat, input@, place as int),
{
    let n: usize = input.unicode_len();
    if n > text_len || n > MAX_WALK {
        return true;
    }
    let mut len: usize = n;
    let mut i: usize = 0;
    while i < n
        invariant
            i <= n <= MAX_WALK,
            n == input@.len(),
            n <= len <= n + i,
            len == n + dotted_count(input@.take(i as int)),
        decreases n - i,
    {
        let c: char = input.get_char(i);
        proof {
            let next = input@.take(i as int + 1);
            assert(next.drop_last() =~= input@.take(i as int));
            assert(next.last() == c);
        }
        if c == DOTTED_I {
            len = len + 1;
        }
        i = i + 1;
    }
    assert(input@.take(n as int) =~= input@);
    if len > text_len || len > MAX_WALK {
        return true;
    }
    let mut most: u64 = u64::MAX / 2;
    let mut left: usize = len;
    let ghost fits = 2 * place * spellings(len as nat) <= u64::MAX;
    proof {
        let word = spellings(len as nat) as int;
        assert(2 * place * word == 2 * (place * word)) by (nonlinear_arith);
    }
    while left > 0
        invariant
            fits <==> place * spellings(left as nat) <= most,
        decreases left,
    {
        proof {
            let rest = spellings((left - 1) as nat) as int;
            assert(place * (3 * rest) == 3 * (place * rest)) by (nonlinear_arith);
        }
        most = most / 3;
        left = left - 1;
    }
    assert(spellings(0) == 1);
    assert(place * 1 == place);
    place as u64 <= most
}

/// Whether the guesses for a password can surely be counted.
pub fn can_count(password: &str, user_inputs: &Vec<String>) -> (r: bool)
    ensures
        r == is_countable(password@, views(user_inputs@)),
{
    let text: Vec<char> = evaluated_chars(password);
    let n: usize = text.len();
    let ghost inputs = views(user_inputs@);
    let mut has_single: bool = false;
    let mut i: usize = 0;
    while i < user_inputs.len()
        invariant
            i <= user_inputs@.len(),
            inputs == views(user_inputs@),
            n == evaluated(password@).len(),
            forall|k: int| 0 <= k < i ==> input_fits(n as nat, #[trigger] inputs[k], k + 1),
            has_single <==> exists|k: int| 0 <= k < i && (#[trigger] inputs[k]).len() == 1,
        decreases user_inputs@.len() - i,
    {
        let input: &str = user_inputs[i].as_str();
        assert(inputs[i as int] == input@);
        if !fits(n, input, i + 1) {
            return false;
        }
        if input.unicode_len() == 1 {
            has_single = true;
        }
        i = i + 1;
    }
    if n <= most_pieces() {
        return true;
    }
    if has_single {
        return false;
    }
    let (short, dotted): (bool, bool) = short_and_dotted(&text);
    short || (!dotted && short_stretches(&text, user_inputs))
}

/// Estimates how strong passwords are, by the same thresholds for each.
pub struct PasswordStrengthEstimator {
    pub thresholds: PasswordStrengthThresholds,
}

impl PasswordStrengthEstimator {
    /// An estimator with these thresholds.
    pub fn new(thresholds: PasswordStrengthThresholds) -> (r: PasswordStrengthEstimator)
        ensures
            r.thresholds == thresholds,
    {
        PasswordStrengthEstimator { thresholds }
    }

    /// An estimator with the thresholds of zxcvbn: 3, 6, 8 and 10.
    pub fn with_zxcvbn_defaults() -> (r: PasswordStrengthEstimator)
        ensures
            r.thresholds.weak.bits == 0x4008_0000_0000_0000,
            r.thresholds.fair.bits == 0x4018_0000_0000_0000,
            r.thresholds.strong.bits == 0x4020_0000_0000_0000,
            r.thresholds.very_strong.bits == 0x4024_0000_0000_0000,
    {
        PasswordStrengthEstimator {
            thresholds: PasswordStrengthThresholds {
                weak: Float64 { bits: 0x4008_0000_0000_0000 },
                fair: Float64 { bits: 0x4018_0000_0000_0000 },
                strong: Float64 { bits: 0x4020_0000_0000_0000 },
                very_strong: Float64 { bits: 0x4024_0000_0000_0000 },
            },
        }
    }

    /// An estimator with thresholds for the hardware of 2025: 11, 16.5, 22 and
    /// 25.5.
    ///
    /// Guesses are counted in 64 bits, so that no score exceeds 19.3: as long as they
    /// are, this estimator ranks no password above Fair.
    pub fn with_modern_defaults2025() -> (r: PasswordStrengthEstimator)
        ensures
            r.thresholds.weak.bits == 0x4026_0000_0000_0000,
            r.thresholds.fair.bits == 0x4030_8000_0000_0000,
            r.thresholds.strong.bits == 0x4036_0000_0000_0000,
            r.thresholds.very_strong.bits == 0x4039_8000_0000_0000,
    {
        PasswordStrengthEstimator {
            thresholds: PasswordStrengthThresholds {
                weak: Float64 { bits: 0x4026_0000_0000_0000 },
                fair: Float64 { bits: 0x4030_8000_0000_0000 },
                strong: Float64 { bits: 0x4036_0000_0000_0000 },
                very_strong: Float64 { bits: 0x4039_8000_0000_0000 },
            },
        }
    }

    /// The estimate for a password of which this much is known. Nothing is told to
    /// a user whose password is ranked Strong or above.
    pub fn estimate_entropy(&self, entropy: &PasswordEntropy) -> (r: PasswordStrengthEstimate)
        ensures
            estimate_of(self.thresholds, entropy.outcome(), r),
    {
        let score: Float64 = Float64 { bits: entropy.score_bits };
        let ranking: PasswordStrengthRanking = self.thresholds.ranking_for_score(score);
        let is_weak: bool = match ranking {
            PasswordStrengthRanking::VeryWeak => true,
            PasswordStrengthRanking::Weak => true,
            PasswordStrengthRanking::Fair => true,
            PasswordStrengthRanking::Strong => false,
            PasswordStrengthRanking::VeryStrong => false,
        };
        let feedback: Option<PasswordStrengthFeedback> = match &entropy.feedback {
            Some(texts) => if is_weak {
                let warning: Option<PasswordStrengthWarning> = match &texts.0 {
                    Some(text) => PasswordStrengthWarning::from(text.as_str()),
                    None => None,
                };
                Some(PasswordStrengthFeedback { warning, suggestions: read_suggestions(&texts.1) })
            } else {
                None
            },
            None => None,
        };
        PasswordStrengthEstimate { ranking, guesses: entropy.guesses, score, feedback }
    }

    /// Estimates how strong a password is. The user inputs are what an attacker
    /// may know of the user, such as the username. Whether the guesses for the password
    /// can be counted is told by `can_count`.
    pub fn estimate(&self, password: String, user_inputs: Vec<String>) -> (r:
        PasswordStrengthEstimate)
        requires
            is_countable(password@, views(user_inputs@)),
        ensures
            is_estimate(self.thresholds, password@, views(user_inputs@), r),
    {
        let entropy: PasswordEntropy = entropy_of(password.as_str(), &user_inputs);
        let r: PasswordStrengthEstimate = self.estimate_entropy(&entropy);
        proof {
            let circumstances = choose|circumstances: int|
                entropy.outcome() == #[trigger] zxcvbn_outcome(
                    password@,
                    views(user_inputs@),
                    circumstances,
                );
            assert(estimate_of(
                self.thresholds,
                zxcvbn_outcome(password@, views(user_inputs@), circumstances),
                r,
            ));
        }
        r
    }
}

/// Whether this is an estimate for the password: one that the thresholds make of an
/// outcome for it.
pub open spec fn is_estimate(
    thresholds: PasswordStrengthThresholds,
    password: Seq<char>,
    user_inputs: Seq<Seq<char>>,
    r: PasswordStrengthEstimate,
) -> bool {
    &&& exists|circumstances: int|
        estimate_of(
            thresholds,
            #[trigger] zxcvbn_outcome(password, user_inputs, circumstances),
            r,
        )
    &&& r.feedback is None ==> r.guesses > 100_000_000 || r.ranking.place()
        > PasswordStrengthRanking::Fair.place()
    &&& password.len() == 0 ==> r.guesses == 0 && r.score.bits == NEG_INFINITY_BITS
    &&& password.len() > 0 ==> r.guesses >= 1 && r.score.is_number()
}

/// A higher score never makes for a lower ranking.
pub proof fn higher_score_never_ranks_lower(
    thresholds: PasswordStrengthThresholds,
    low: Float64,
    high: Float64,
)
    requires
        high.is_at_least(low),
    ensures
        ranking_of(thresholds, low).place() <= ranking_of(thresholds, high).place(),
{
}

/// Higher thresholds never make for a higher ranking.
pub proof fn stricter_thresholds_never_rank_higher(
    lenient: PasswordStrengthThresholds,
    strict: PasswordStrengthThresholds,
    score: Float64,
)
    requires
        strict.weak.is_at_least(lenient.weak),
        strict.fair.is_at_least(lenient.fair),
        strict.strong.is_at_least(lenient.strong),
        strict.very_strong.is_at_least(lenient.very_strong),
    ensures
        ranking_of(strict, score).place() <= ranking_of(lenient, score).place(),
{
}

/// The ranking of an empty password is the lowest one, unless a threshold is
/// negative infinity.
pub proof fn empty_password_is_very_weak(thresholds: PasswordStrengthThresholds)
    requires
        thresholds.weak.bits != NEG_INFINITY_BITS,
        thresholds.fair.bits != NEG_INFINITY_BITS,
        thresholds.strong.bits != NEG_INFINITY_BITS,
        thresholds.very_strong.bits != NEG_INFINITY_BITS,
    ensures
        ranking_of(thresholds, Float64 { bits: NEG_INFINITY_BITS })
            == PasswordStrengthRanking::VeryWeak,
{
}

/// A password is ranked by the highest threshold that its score reaches, where the thresholds stand
/// in their order.
pub proof fn passwords_are_ranked_by_their_score(
    thresholds: PasswordStrengthThresholds,
    score: Float64,
    r: PasswordStrengthRanking,
)
    requires
        call_ensures(PasswordStrengthThresholds::ranking_for_score, (&thresholds, score), r),
        score.is_number(),
        thresholds.weak.is_number() && thresholds.fair.is_number() && thresholds.strong.is_number()
            && thresholds.very_strong.is_number(),
        thresholds.weak.place() <= thresholds.fair.place() <= thresholds.strong.place()
            <= thresholds.very_strong.place(),
    ensures
        r is VeryWeak <==> score.place() < thresholds.weak.place(),
        r is Weak <==> thresholds.weak.place() <= score.place() < thresholds.fair.place(),
        r is Fair <==> thresholds.fair.place() <= score.place() < thresholds.strong.place(),
        r is Strong <==> thresholds.strong.place() <= score.place() < thresholds.very_strong.place(),
        r is VeryStrong <==> thresholds.very_strong.place() <= score.place(),
{
}

/// The estimate tells the guesses and the score that were counted, and what to do about a password
/// that ranks Fair or below, where something is known of that.
pub proof fn estimates_tell_what_was_counted(
    estimator: PasswordStrengthEstimator,
    entropy: PasswordEntropy,
    r: PasswordStrengthEstimate,
    ranking: PasswordStrengthRanking,
)
    requires
        call_ensures(PasswordStrengthEstimator::estimate_entropy, (&estimator, &entropy), r),
        call_ensures(
            PasswordStrengthThresholds::ranking_for_score,
            (&estimator.thresholds, Float64 { bits: entropy.score_bits }),
            ranking,
        ),
    ensures
        r.guesses == entropy.guesses && r.score.bits == entropy.score_bits,
        r.ranking == ranking,
        r.feedback is Some <==> entropy.feedback is Some && !(ranking is Strong
            || ranking is VeryStrong),
{
}

/// Numbers are compared as numbers: the larger bits are the larger number above zero and the smaller
/// one below it, and both zeros are the same.
pub proof fn numbers_are_compared(a: Float64, b: Float64, r: bool)
    requires
        call_ensures(Float64::at_least, (a, b), r),
    ensures
        a.bits <= INFINITY_BITS && b.bits <= INFINITY_BITS ==> (r <==> a.bits >= b.bits),
        a.bits >= SIGN_BIT && b.bits >= SIGN_BIT && a.bits <= NEG_INFINITY_BITS && b.bits
            <= NEG_INFINITY_BITS ==> (r <==> a.bits <= b.bits),
        a.bits <= INFINITY_BITS && SIGN_BIT <= b.bits <= NEG_INFINITY_BITS ==> r,
        SIGN_BIT < a.bits <= NEG_INFINITY_BITS && b.bits <= INFINITY_BITS ==> !r,
        INFINITY_BITS < a.bits < SIGN_BIT || a.bits > NEG_INFINITY_BITS ==> !r,
        INFINITY_BITS < b.bits < SIGN_BIT || b.bits > NEG_INFINITY_BITS ==> !r,
{
}

/// A warning is only told where its text was given.
pub proof fn warnings_are_told_by_their_texts(text: &str, r: Option<PasswordStrengthWarning>)
    requires
        call_ensures(PasswordStrengthWarning::from, (text,), r),
    ensures
        r matches Some(warning) ==> match warning {
            PasswordStrengthWarning::StraightRowsOfKeysAreEasyToGuess => text@ == "Straight rows of keys are easy to guess."@,
            PasswordStrengthWarning::ShortKeyboardPatternsAreEasyToGuess => text@ == "Short keyboard patterns are easy to guess."@,
            PasswordStrengthWarning::RepeatsLikeAaaAreEasyToGuess => text@ == "Repeats like \"aaa\" are easy to guess."@,
            PasswordStrengthWarning::RepeatsLikeAbcAbcAreOnlySlightlyHarderToGuess => text@ == "Repeats like \"abcabcabc\" are only slightly harder to guess than \"abc\"."@,
            PasswordStrengthWarning::ThisIsATop10Password => text@ == "This is a top-10 common password."@,
            PasswordStrengthWarning::ThisIsATop100Password => text@ == "This is a top-100 common password."@,
            PasswordStrengthWarning::ThisIsACommonPassword => text@ == "This is a very common password."@,
            PasswordStrengthWarning::ThisIsSimilarToACommonlyUsedPassword => text@ == "This is similar to a commonly used password."@,
            PasswordStrengthWarning::SequencesLikeAbcAreEasyToGuess => text@ == "Sequences like abc or 6543 are easy to guess."@,
            PasswordStrengthWarning::RecentYearsAreEasyToGuess => text@ == "Recent years are easy to guess."@,
            PasswordStrengthWarning::AWordByItselfIsEasyToGuess => text@ == "A word by itself is easy to guess."@,
            PasswordStrengthWarning::DatesAreOftenEasyToGuess => text@ == "Dates are often easy to guess."@,
            PasswordStrengthWarning::NamesAndSurnamesByThemselvesAreEasyToGuess => text@ == "Names and surnames by themselves are easy to guess."@,
            PasswordStrengthWarning::CommonNamesAndSurnamesAreEasyToGuess => text@ == "Common names and surnames are easy to guess."@,
        },
{
}

/// A suggestion is only told where its text was given.
pub proof fn suggestions_are_told_by_their_texts(text: &str, r: Option<PasswordStrengthSuggestion>)
    requires
        call_ensures(PasswordStrengthSuggestion::from, (text,), r),
    ensures
        r matches Some(suggestion) ==> match suggestion {
            PasswordStrengthSuggestion::UseAFewWordsAvoidCommonPhrases => text@ == "Use a few words, avoid common phrases."@,
            PasswordStrengthSuggestion::NoNeedForSymbolsDigitsOrUppercaseLetters => text@ == "No need for symbols, digits, or uppercase letters."@,
            PasswordStrengthSuggestion::AddAnotherWordOrTwo => text@ == "Add another word or two. Uncommon words are better."@,
            PasswordStrengthSuggestion::CapitalizationDoesntHelpVeryMuch => text@ == "Capitalization doesn't help very much."@,
            PasswordStrengthSuggestion::AllUppercaseIsAlmostAsEasyToGuessAsAllLowercase => text@ == "All-uppercase is almost as easy to guess as all-lowercase."@,
            PasswordStrengthSuggestion::ReversedWordsArentMuchHarderToGuess => text@ == "Reversed words aren't much harder to guess."@,
            PasswordStrengthSuggestion::PredictableSubstitutionsDontHelpVeryMuch => text@ == "Predictable substitutions like '@' instead of 'a' don't help very much."@,
            PasswordStrengthSuggestion::UseALongerKeyboardPatternWithMoreTurns => text@ == "Use a longer keyboard pattern with more turns."@,
            PasswordStrengthSuggestion::AvoidRepeatedWordsAndCharacters => text@ == "Avoid repeated words and characters."@,
            PasswordStrengthSuggestion::AvoidSequences => text@ == "Avoid sequences."@,
            PasswordStrengthSuggestion::AvoidRecentYears => text@ == "Avoid recent years."@,
            PasswordStrengthSuggestion::AvoidYearsThatAreAssociatedWithYou => text@ == "Avoid years that are associated with you."@,
            PasswordStrengthSuggestion::AvoidDatesAndYearsThatAreAssociatedWithYou => text@ == "Avoid dates and years that are associated with you."@,
        },
{
}

/// Suggestions are told one by one, in their order.
pub proof fn suggestions_are_told_in_order(texts: Seq<Seq<char>>, text: Seq<char>)
    ensures
        suggestions_of(Seq::<Seq<char>>::empty()).len() == 0,
        suggestions_of(texts.push(text)) == (if suggestion_of(text) is Some {
            suggestions_of(texts).push(suggestion_of(text)->0)
        } else {
            suggestions_of(texts)
        }),
{
    assert(texts.push(text).drop_last() =~= texts);
}

/// The thresholds of both sets rise, those for modern hardware are stricter than those of zxcvbn,
/// and an estimator has the thresholds that it was made with.
pub proof fn thresholds_rise(
    thresholds: PasswordStrengthThresholds,
    own: PasswordStrengthEstimator,
    classic: PasswordStrengthEstimator,
    modern: PasswordStrengthEstimator,
)
    requires
        call_ensures(PasswordStrengthEstimator::new, (thresholds,), own),
        call_ensures(PasswordStrengthEstimator::with_zxcvbn_defaults, (), classic),
        call_ensures(PasswordStrengthEstimator::with_modern_defaults2025, (), modern),
    ensures
        own.thresholds == thresholds,
        classic.thresholds.weak.bits < classic.thresholds.fair.bits < classic.thresholds.strong.bits
            < classic.thresholds.very_strong.bits < modern.thresholds.weak.bits
            < modern.thresholds.fair.bits < modern.thresholds.strong.bits
            < modern.thresholds.very_strong.bits < INFINITY_BITS,
{
}

/// Any password of few characters can be counted, whatever is known of the user that is no longer;
/// and no more than the first hundred characters of a password count.
pub proof fn short_passwords_can_be_counted(
    password: &str,
    inputs: Vec<String>,
    r: bool,
    other: &str,
    same_start: bool,
)
    requires
        call_ensures(can_count, (password, &inputs), r),
        call_ensures(can_count, (other, &inputs), same_start),
    ensures
        password@.len() <= 12 && inputs@.len() == 0 ==> r,
        password@.len() >= 100 && other@.len() >= 100 && password@.take(100) == other@.take(100)
            ==> r == same_start,
{
    if password@.len() >= 100 && other@.len() >= 100 && password@.take(100) == other@.take(100) {
        assert(evaluated(password@) =~= password@.take(100));
        assert(evaluated(other@) =~= other@.take(100));
    }
}

/// An estimate tells a password that takes guesses from the empty one, and feedback is kept from
/// strong passwords.
pub proof fn estimates_are_of_the_password(
    estimator: PasswordStrengthEstimator,
    password: String,
    inputs: Vec<String>,
    r: PasswordStrengthEstimate,
    ranking: PasswordStrengthRanking,
)
    requires
        is_countable(password@, views(inputs@)),
        call_ensures(PasswordStrengthEstimator::estimate, (&estimator, password, inputs), r),
        call_ensures(
            PasswordStrengthThresholds::ranking_for_score,
            (&estimator.thresholds, r.score),
            ranking,
        ),
    ensures
        r.ranking == ranking,
        r.guesses == 0 <==> password@.len() == 0,
        r.feedback is Some ==> !(ranking is Strong || ranking is VeryStrong),
        r.guesses <= 100_000_000 && !(ranking is Strong || ranking is VeryStrong)
            ==> r.feedback is Some,
        exists|circumstances: int|
            (#[trigger] zxcvbn_outcome(password@, views(inputs@), circumstances)).0 == r.guesses,
{
    let circumstances = choose|circumstances: int|
        estimate_of(
            estimator.thresholds,
            #[trigger] zxcvbn_outcome(password@, views(inputs@), circumstances),
            r,
        );
    assert(zxcvbn_outcome(password@, views(inputs@), circumstances).0 == r.guesses);
}

} // verus!
