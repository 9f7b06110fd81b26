//! Commands as text: a command line split at whitespace, or a list of
//! strings.

use crate::command::{texts, Command, CommandView};
use vstd::prelude::*;

verus! {

/// Whether `c` is white space, as Unicode defines it.
pub open spec fn is_whitespace(c: char) -> bool {
    ||| ('\u{9}' <= c && c <= '\u{d}')
    ||| c == ' '
    ||| c == '\u{85}'
    ||| c == '\u{a0}'
    ||| c == '\u{1680}'
    ||| ('\u{2000}' <= c && c <= '\u{200a}')
    ||| c == '\u{2028}'
    ||| c == '\u{2029}'
    ||| c == '\u{202f}'
    ||| c == '\u{205f}'
    ||| c == '\u{3000}'
}

/// Whether `c` is white space, as Unicode defines it.
pub fn whitespace(c: char) -> (white: bool)
    ensures
        white == is_whitespace(c),
{
    ('\u{9}' <= c && c <= '\u{d}') || c == ' ' || c == '\u{85}' || c == '\u{a0}' || c
        == '\u{1680}' || ('\u{2000}' <= c && c <= '\u{200a}') || c == '\u{2028}' || c
        == '\u{2029}' || c == '\u{202f}' || c == '\u{205f}' || c == '\u{3000}'
}

/// The characters of `text`, in order.
fn chars_of(text: &str) -> (chars: Vec<char>)
    ensures
        chars@ == text@,
{
    let mut chars: Vec<char> = Vec::new();
    for c in it: text.chars()
        invariant
            it.seq() == text@,
            chars@ == text@.take(it.index()),
    {
        chars.push(c);
        assert(text@.take(it.index() + 1) =~= text@.take(it.index()).push(c));
    }
    assert(text@.take(text@.len() as int) =~= text@);
    chars
}

/// How many characters `text` starts with before its first white space:
/// the length of the word that `text` begins with.
pub open spec fn word_len(text: Seq<char>) -> nat
    decreases text.len(),
{
    if text.len() == 0 || is_whitespace(text[0]) {
        0
    } else {
        1 + word_len(text.drop_first())
    }
}

/// The words of `text`: its longest runs of characters that are not white
/// space, in order.
///
/// White space before a word is skipped; the word is all that follows up
/// to the next white space or the end; the other words are those of what
/// comes after it.
pub open spec fn words(text: Seq<char>) -> Seq<Seq<char>>
    decreases text.len(),
    via words_decreases
{
    if text.len() == 0 {
        Seq::empty()
    } else if is_whitespace(text[0]) {
        words(text.drop_first())
    } else {
        seq![text.take(word_len(text) as int)] + words(text.skip(word_len(text) as int))
    }
}

#[via_fn]
proof fn words_decreases(text: Seq<char>) {
    lemma_word_len(text);
}

/// Whether `word` can stand in a command line as one word: it is not empty
/// and holds no white space.
pub open spec fn is_word(word: Seq<char>) -> bool {
    word.len() > 0 && forall|i: int| 0 <= i < word.len() ==> !is_whitespace(#[trigger] word[i])
}

/// The word that a text begins with is within the text, holds no white
/// space, and ends at white space or at the end of the text.
pub proof fn lemma_word_len(text: Seq<char>)
    ensures
        word_len(text) <= text.len(),
        forall|i: int| 0 <= i < word_len(text) ==> !is_whitespace(#[trigger] text[i]),
        word_len(text) < text.len() ==> is_whitespace(text[word_len(text) as int]),
    decreases text.len(),
{
    if text.len() > 0 && !is_whitespace(text[0]) {
        let rest = text.drop_first();
        lemma_word_len(rest);
        assert forall|i: int| 0 <= i < word_len(text) implies !is_whitespace(
            #[trigger] text[i],
        ) by {
            if i > 0 {
                assert(text[i] == rest[i - 1]);
            }
        }
    }
}

/// A run without white space that ends at white space or at the end of the
/// text is the word that the text begins with.
pub proof fn lemma_word_len_is(text: Seq<char>, n: int)
    requires
        0 <= n <= text.len(),
        forall|i: int| 0 <= i < n ==> !is_whitespace(#[trigger] text[i]),
        n < text.len() ==> is_whitespace(text[n]),
    ensures
        word_len(text) == n,
    decreases n,
{
    if n > 0 {
        let rest = text.drop_first();
        assert(!is_whitespace(text[0]));
        assert forall|i: int| 0 <= i < n - 1 implies !is_whitespace(#[trigger] rest[i]) by {
            assert(rest[i] == text[i + 1]);
        }
        lemma_word_len_is(rest, n - 1);
    }
}

/// Each word of a text is a word: not empty, and without white space.
pub proof fn lemma_words_are_words(text: Seq<char>)
    ensures
        forall|k: int| 0 <= k < words(text).len() ==> is_word(#[trigger] words(text)[k]),
    decreases text.len(),
{
    if text.len() == 0 {
        assert(words(text).len() == 0);
    } else if is_whitespace(text[0]) {
        lemma_words_are_words(text.drop_first());
        assert(words(text) == words(text.drop_first()));
    } else {
        let n = word_len(text) as int;
        lemma_word_len(text);
        lemma_words_are_words(text.skip(n));
        let first = text.take(n);
        assert forall|i: int| 0 <= i < first.len() implies !is_whitespace(#[trigger] first[i]) by {
            assert(first[i] == text[i]);
        }
        assert(first.len() > 0);
        assert(is_word(first));
        let all = words(text);
        assert(all == seq![first] + words(text.skip(n)));
        assert forall|k: int| 0 <= k < all.len() implies is_word(#[trigger] all[k]) by {
            if k > 0 {
                assert(all[k] == words(text.skip(n))[k - 1]);
            } else {
                assert(all[0] == first);
            }
        }
    }
}

/// A text has no word exactly if it is white space throughout.
pub proof fn lemma_no_words(text: Seq<char>)
    ensures
        words(text).len() == 0 <==> forall|i: int|
            0 <= i < text.len() ==> is_whitespace(#[trigger] text[i]),
    decreases text.len(),
{
    if text.len() > 0 && is_whitespace(text[0]) {
        let rest = text.drop_first();
        lemma_no_words(rest);
        if words(text).len() == 0 {
            assert forall|i: int| 0 <= i < text.len() implies is_whitespace(
                #[trigger] text[i],
            ) by {
                if i > 0 {
                    assert(text[i] == rest[i - 1]);
                }
            }
        }
        if forall|i: int| 0 <= i < text.len() ==> is_whitespace(#[trigger] text[i]) {
            assert forall|i: int| 0 <= i < rest.len() implies is_whitespace(
                #[trigger] rest[i],
            ) by {
                assert(rest[i] == text[i + 1]);
            }
        }
    }
}

/// Splits `text` into its words.
pub fn split_whitespace(text: &str) -> (list: Vec<String>)
    ensures
        texts(list@) == words(text@),
        forall|k: int| 0 <= k < list@.len() ==> is_word(#[trigger] list@[k]@),
{
    let chars = chars_of(text);
    let n = chars.len();
    let mut list: Vec<String> = Vec::new();
    let mut i: usize = 0;
    proof {
        assert(text@.skip(0) =~= text@);
        assert(texts(list@) =~= Seq::<Seq<char>>::empty());
    }
    while i < n
        invariant
            i <= n,
            n == chars@.len(),
            chars@ == text@,
            words(text@) == texts(list@) + words(text@.skip(i as int)),
        decreases n - i,
    {
        let ghost rest = text@.skip(i as int);
        if whitespace(chars[i]) {
            assert(rest.drop_first() =~= text@.skip(i + 1));
            i += 1;
        } else {
            let start = i;
            while i < n && !whitespace(chars[i])
                invariant
                    start <= i <= n,
                    n == chars@.len(),
                    chars@ == text@,
                    forall|j: int| start <= j < i ==> !is_whitespace(#[trigger] text@[j]),
                decreases n - i,
            {
                i += 1;
            }
            let word = text.substring_char(start, i).to_owned();
            proof {
                assert forall|j: int| 0 <= j < i - start implies !is_whitespace(
                    #[trigger] rest[j],
                ) by {
                    assert(rest[j] == text@[start + j]);
                }
                lemma_word_len_is(rest, i - start);
                assert(rest.take(i - start) =~= text@.subrange(start as int, i as int));
                assert(rest.skip(i - start) =~= text@.skip(i as int));
                assert(texts(list@.push(word)) =~= texts(list@) + seq![word@]);
            }
            list.push(word);
        }
    }
    proof {
        assert(text@.skip(n as int) =~= Seq::<char>::empty());
        lemma_words_are_words(text@);
        assert forall|k: int| 0 <= k < list@.len() implies is_word(#[trigger] list@[k]@) by {
            assert(texts(list@)[k] == list@[k]@);
        }
    }
    list
}

/// The text that holds `list` as a command line: its items in order, one
/// space between each two.
pub open spec fn join(list: Seq<Seq<char>>) -> Seq<char>
    decreases list.len(),
{
    if list.len() == 0 {
        Seq::empty()
    } else if list.len() == 1 {
        list[0]
    } else {
        list[0] + seq![' '] + join(list.drop_first())
    }
}

/// Joining a list that has one more item appends a space and that item.
pub proof fn lemma_join_push(list: Seq<Seq<char>>, item: Seq<char>)
    requires
        list.len() > 0,
    ensures
        join(list.push(item)) == join(list) + seq![' '] + item,
    decreases list.len(),
{
    let longer = list.push(item);
    assert(longer.drop_first() =~= list.drop_first().push(item));
    if list.len() == 1 {
        assert(longer.drop_first() =~= seq![item]);
        assert(join(longer.drop_first()) == item);
    } else {
        lemma_join_push(list.drop_first(), item);
        assert(join(longer) =~= join(list) + seq![' '] + item);
    }
}

/// A command line made of words splits into those words again.
pub proof fn lemma_words_of_join(list: Seq<Seq<char>>)
    requires
        forall|k: int| 0 <= k < list.len() ==> is_word(#[trigger] list[k]),
    ensures
        words(join(list)) == list,
    decreases list.len(),
{
    if list.len() == 0 {
        assert(words(join(list)) =~= list);
    } else {
        let first = list[0];
        let line = join(list);
        assert(is_word(first));
        assert(!is_whitespace(first[0]));
        if list.len() == 1 {
            lemma_word_len_is(line, first.len() as int);
            assert(line.take(first.len() as int) =~= first);
            assert(line.skip(first.len() as int) =~= Seq::<char>::empty());
            assert(words(line.skip(first.len() as int)) =~= Seq::<Seq<char>>::empty());
            assert(words(line) == seq![first] + words(line.skip(first.len() as int)));
            assert(words(line) =~= list);
        } else {
            let rest = list.drop_first();
            let tail = seq![' '] + join(rest);
            assert(line =~= first + tail);
            assert forall|i: int| 0 <= i < first.len() implies !is_whitespace(
                #[trigger] line[i],
            ) by {
                assert(line[i] == first[i]);
            }
            assert(line[first.len() as int] == ' ');
            lemma_word_len_is(line, first.len() as int);
            assert(line.take(first.len() as int) =~= first);
            assert(line.skip(first.len() as int) =~= tail);
            assert(tail.drop_first() =~= join(rest));
            assert forall|k: int| 0 <= k < rest.len() implies is_word(#[trigger] rest[k]) by {
                assert(rest[k] == list[k + 1]);
            }
            lemma_words_of_join(rest);
            assert(words(tail) == rest);
            assert(words(line) =~= list);
        }
    }
}

/// Why a text or a list is not a command.
#[derive(Debug, PartialEq, Eq, Structural)]
pub enum ParseError {
    /// There is no word to take as the program.
    Empty,
}

impl ParseError {
    /// What went wrong, in words.
    pub fn message(&self) -> (message: String)
        ensures
            message@ == "command cannot be empty"@,
    {
        "command cannot be empty".to_owned()
    }
}

/// The command that runs the first item of `list` with the other items as
/// its arguments.
pub open spec fn command_of(list: Seq<Seq<char>>) -> CommandView
    recommends
        list.len() > 0,
{
    CommandView::new(list[0]).args(list.skip(1))
}

/// The program of `command` followed by its arguments.
pub open spec fn list_of(command: CommandView) -> Seq<Seq<char>> {
    seq![command.program] + command.arg_seq()
}

impl Command {
    /// Reads a command from a list of strings: the program, then its
    /// arguments. An empty list is no command.
    pub fn from_list(list: Vec<String>) -> (result: Result<Command, ParseError>)
        ensures
            match result {
                Ok(command) => list@.len() > 0 && command@ == command_of(texts(list@)),
                Err(error) => list@.len() == 0 && error == ParseError::Empty,
            },
    {
        if list.len() == 0 {
            return Err(ParseError::Empty);
        }
        let ghost all = texts(list@);
        let mut command = Command::new(list[0].as_str());
        let mut i: usize = 1;
        while i < list.len()
            invariant
                1 <= i <= list.len(),
                all == texts(list@),
                command@ == CommandView::new(all[0]).args(all.skip(1).take(i - 1)),
            decreases list.len() - i,
        {
            assert(CommandView::new(all[0]).args(all.skip(1).take(i - 1)).arg_seq().push(
                all[i as int],
            ) =~= all.skip(1).take(i as int));
            command.arg(list[i].as_str());
            i += 1;
        }
        assert(all.skip(1).take(i - 1) =~= all.skip(1));
        Ok(command)
    }

    /// Reads a command from a command line: the first word is the program,
    /// the other words are its arguments. Words are separated by any amount
    /// of white space. A text without a word is no command.
    pub fn from_text(text: &str) -> (result: Result<Command, ParseError>)
        ensures
            match result {
                Ok(command) => words(text@).len() > 0 && command@ == command_of(words(text@)),
                Err(error) => words(text@).len() == 0 && error == ParseError::Empty,
            },
            result is Err <==> forall|i: int|
                0 <= i < text@.len() ==> is_whitespace(#[trigger] text@[i]),
    {
        proof {
            lemma_no_words(text@);
        }
        Command::from_list(split_whitespace(text))
    }

    /// Writes the command as a list of strings: the program, then its
    /// arguments. The variables, the working directory and the streams are
    /// left out.
    pub fn to_list(&self) -> (list: Vec<String>)
        ensures
            texts(list@) == list_of(self@),
    {
        let mut list: Vec<String> = Vec::new();
        list.push(self.program.clone());
        assert(texts(list@) =~= seq![self@.program]);
        if let Some(args) = &self.args {
            let mut i: usize = 0;
            while i < args.len()
                invariant
                    i <= args.len(),
                    texts(list@) == seq![self@.program] + texts(args@).take(i as int),
                decreases args.len() - i,
            {
                let ghost before = list@;
                list.push(args[i].clone());
                assert(texts(list@) =~= texts(before).push(args@[i as int]@));
                assert(texts(args@).take(i + 1) =~= texts(args@).take(i as int).push(
                    args@[i as int]@,
                ));
                i += 1;
            }
            assert(texts(args@).take(i as int) =~= texts(args@));
        }
        list
    }

    /// Writes the command as a command line: the program, then its
    /// arguments, one space between each two. The variables, the working
    /// directory and the streams are left out.
    pub fn to_text(&self) -> (text: String)
        ensures
            text@ == join(list_of(self@)),
    {
        let mut text = self.program.clone();
        let ghost mut done = seq![self@.program];
        if let Some(args) = &self.args {
            let mut i: usize = 0;
            while i < args.len()
                invariant
                    i <= args.len(),
                    done == seq![self@.program] + texts(args@).take(i as int),
                    text@ == join(done),
                decreases args.len() - i,
            {
                proof {
                    reveal_strlit(" ");
                    lemma_join_push(done, args@[i as int]@);
                    assert(" "@ =~= seq![' ']);
                    assert(texts(args@).take(i + 1) =~= texts(args@).take(i as int).push(
                        args@[i as int]@,
                    ));
                    assert(done.push(args@[i as int]@) =~= seq![self@.program] + texts(args@).take(
                        i + 1,
                    ));
                    done = done.push(args@[i as int]@);
                }
                text.append(" ");
                text.append(args[i].as_str());
                i += 1;
            }
            assert(texts(args@).take(i as int) =~= texts(args@));
        }
        text
    }
}

/// Writing a command as a list and reading the list back gives a command
/// with the same program and the same arguments.
pub proof fn lemma_list_round_trip(command: CommandView)
    ensures
        list_of(command).len() > 0,
        command_of(list_of(command)).program == command.program,
        command_of(list_of(command)).arg_seq() == command.arg_seq(),
{
    let list = list_of(command);
    assert(list.skip(1) =~= command.arg_seq());
    assert(Seq::<Seq<char>>::empty() + command.arg_seq() =~= command.arg_seq());
}

/// Writing a command as a command line and reading the line back gives a
/// command with the same program and the same arguments, provided that the
/// program and each argument is a word: not empty, and without white space.
pub proof fn lemma_text_round_trip(command: CommandView)
    requires
        is_word(command.program),
        forall|k: int|
            0 <= k < command.arg_seq().len() ==> is_word(#[trigger] command.arg_seq()[k]),
    ensures
        words(join(list_of(command))) == list_of(command),
        command_of(words(join(list_of(command)))).program == command.program,
        command_of(words(join(list_of(command)))).arg_seq() == command.arg_seq(),
{
    let list = list_of(command);
    assert forall|k: int| 0 <= k < list.len() implies is_word(#[trigger] list[k]) by {
        if k > 0 {
            assert(list[k] == command.arg_seq()[k - 1]);
        }
    }
    lemma_words_of_join(list);
    lemma_list_round_trip(command);
}

} // verus!
