//! Autocomplete engine of the prompt: filters a fixed corpus of suggestions by
//! the line typed so far, under the `/` (command) and `@` (file) disciplines.

use vstd::prelude::*;
use vstd::std_specs::iter::IteratorSpec;

verus! {

/// The text that `str::trim` returns for `text`: `text` without its leading
/// and trailing Unicode whitespace.
pub uninterp spec fn trimmed(text: Seq<char>) -> Seq<char>;

/// The text that `str::to_lowercase` returns for `text`: its Unicode
/// lowercase equivalent.
pub uninterp spec fn lowercased(text: Seq<char>) -> Seq<char>;

/// `str::trim` depends on its argument alone; its result is `trimmed` of it.
pub assume_specification[ str::trim ](s: &str) -> (r: &str)
    ensures
        r@ == trimmed(s@),
;

/// `str::to_lowercase` depends on its argument alone; its result is
/// `lowercased` of it.
pub assume_specification[ str::to_lowercase ](s: &str) -> (r: String)
    ensures
        r@ == lowercased(s@),
;

/// The query that an input line stands for: trimmed, then lowercased.
pub open spec fn normalized(input: Seq<char>) -> Seq<char> {
    lowercased(trimmed(input))
}

/// `pat` is an initial segment of `text`.
pub open spec fn is_prefix_of(pat: Seq<char>, text: Seq<char>) -> bool {
    pat.len() <= text.len() && text.subrange(0, pat.len() as int) == pat
}

/// `pat` stands in `text` at position `at`.
pub open spec fn occurs_at(pat: Seq<char>, text: Seq<char>, at: int) -> bool {
    0 <= at && at + pat.len() <= text.len() && text.subrange(at, at + pat.len()) == pat
}

/// `pat` stands somewhere in `text`.
pub open spec fn occurs_in(pat: Seq<char>, text: Seq<char>) -> bool {
    exists|at: int| occurs_at(pat, text, at)
}

/// Position of the last `@` in `text`, or -1 where it has none.
pub open spec fn last_at_sign(text: Seq<char>) -> int
    decreases text.len(),
{
    if text.len() == 0 {
        -1
    } else if text.last() == '@' {
        text.len() - 1
    } else {
        last_at_sign(text.drop_last())
    }
}

/// What follows the last `@` of `text`.
pub open spec fn file_tail(text: Seq<char>) -> Seq<char> {
    text.subrange(last_at_sign(text) + 1, text.len() as int)
}

/// The rule for `/` queries: the lowercased entry starts with the query.
pub open spec fn command_rule(query: Seq<char>, lowered_entry: Seq<char>) -> bool {
    is_prefix_of(query, lowered_entry)
}

/// The rule for `@` queries: the part after the last `@` is not empty, holds
/// no `@`, and stands somewhere in the lowercased entry.
pub open spec fn file_rule(query: Seq<char>, lowered_entry: Seq<char>) -> bool {
    let tail = file_tail(query);
    tail.len() > 0 && !tail.contains('@') && occurs_in(tail, lowered_entry)
}

/// Whether a normalized query keeps an entry, given the entry's lowercase.
pub open spec fn query_keeps(query: Seq<char>, lowered_entry: Seq<char>) -> bool {
    if query.len() == 0 {
        false
    } else if query[0] == '/' {
        command_rule(query, lowered_entry)
    } else if query.contains('@') {
        file_rule(query, lowered_entry)
    } else {
        false
    }
}

/// The entries of `corpus` that `keeps` holds of, in corpus order and with
/// their multiplicity.
pub open spec fn kept(corpus: Seq<Seq<char>>, keeps: spec_fn(Seq<char>) -> bool) -> Seq<Seq<char>>
    decreases corpus.len(),
{
    if corpus.len() == 0 {
        Seq::empty()
    } else if keeps(corpus.last()) {
        kept(corpus.drop_last(), keeps).push(corpus.last())
    } else {
        kept(corpus.drop_last(), keeps)
    }
}

/// The suggestions for a normalized query.
pub open spec fn selected(corpus: Seq<Seq<char>>, query: Seq<char>) -> Seq<Seq<char>> {
    kept(corpus, |entry: Seq<char>| query_keeps(query, lowercased(entry)))
}

/// The suggestions for an input line as typed.
pub open spec fn suggestions(corpus: Seq<Seq<char>>, input: Seq<char>) -> Seq<Seq<char>> {
    selected(corpus, normalized(input))
}

/// The texts of a sequence of strings.
pub open spec fn texts(items: Seq<String>) -> Seq<Seq<char>> {
    Seq::new(items.len(), |i: int| items[i]@)
}

/// `part` can be had from `whole` by leaving entries out.
pub open spec fn is_subsequence(part: Seq<Seq<char>>, whole: Seq<Seq<char>>) -> bool
    decreases whole.len(),
{
    if part.len() == 0 {
        true
    } else if whole.len() == 0 {
        false
    } else {
        (part.last() == whole.last() && is_subsequence(part.drop_last(), whole.drop_last()))
            || is_subsequence(part, whole.drop_last())
    }
}

/// The characters of a string, one by one.
pub fn chars_of(s: &str) -> (chars: Vec<char>)
    ensures
        chars@ == s@,
{
    broadcast use vstd::string::group_string_axioms;

    let mut chars: Vec<char> = Vec::new();
    let mut rest = s.chars();
    loop
        invariant
            chars@ + rest.remaining() == s@,
            rest.decrease() is Some,
        decreases rest.decrease()->0,
    {
        match rest.next() {
            Some(c) => {
                chars.push(c);
                proof {
                    assert(chars@ + rest.remaining() =~= s@);
                }
            },
            None => {
                proof {
                    assert(chars@ =~= s@);
                }
                return chars;
            },
        }
    }
}

/// Whether `pat` stands in `text` at position `at`.
fn matches_at(text: &Vec<char>, pat: &Vec<char>, at: usize) -> (found: bool)
    requires
        at + pat@.len() <= text@.len(),
    ensures
        found == occurs_at(pat@, text@, at as int),
{
    let n: usize = pat.len();
    let mut k: usize = 0;
    while k < n
        invariant
            n == pat@.len(),
            at + n <= text.len(),
            k <= n,
            text@.subrange(at as int, at + k) == pat@.take(k as int),
        decreases n - k,
    {
        if text[at + k] != pat[k] {
            proof {
                let whole = text@.subrange(at as int, at + n);
                assert(whole[k as int] == text@[at + k]);
            }
            return false;
        }
        proof {
            assert(text@.subrange(at as int, at + k + 1) == text@.subrange(
                at as int,
                at + k,
            ).push(text@[at + k]));
            assert(pat@.take(k + 1) == pat@.take(k as int).push(pat@[k as int]));
        }
        k += 1;
    }
    proof {
        assert(pat@.take(n as int) == pat@);
    }
    true
}

/// Whether `text` starts with `pat`.
pub fn starts_with(text: &Vec<char>, pat: &Vec<char>) -> (found: bool)
    ensures
        found == is_prefix_of(pat@, text@),
{
    pat.len() <= text.len() && matches_at(text, pat, 0)
}

/// Whether `pat` stands somewhere in `text`.
pub fn contains(text: &Vec<char>, pat: &Vec<char>) -> (found: bool)
    ensures
        found == occurs_in(pat@, text@),
{
    if pat.len() > text.len() {
        return false;
    }
    let last: usize = text.len() - pat.len();
    let mut at: usize = 0;
    loop
        invariant
            last + pat@.len() == text@.len(),
            at <= last,
            forall|j: int| 0 <= j < at ==> !occurs_at(pat@, text@, j),
        decreases last - at,
    {
        if matches_at(text, pat, at) {
            return true;
        }
        if at == last {
            return false;
        }
        at += 1;
    }
}

/// Whether `c` is one of the characters of `text`.
fn has_char(text: &Vec<char>, c: char) -> (found: bool)
    ensures
        found == text@.contains(c),
{
    let mut i: usize = 0;
    while i < text.len()
        invariant
            i <= text@.len(),
            forall|j: int| 0 <= j < i ==> text@[j] != c,
        decreases text@.len() - i,
    {
        if text[i] == c {
            return true;
        }
        i += 1;
    }
    false
}

/// What follows the last `@` of `text`; all of `text` where it has none.
fn tail_after_last_at(text: &Vec<char>) -> (tail: Vec<char>)
    ensures
        tail@ == file_tail(text@),
{
    let mut start: usize = text.len();
    proof {
        assert(text@.take(text@.len() as int) == text@);
    }
    while start > 0 && text[start - 1] != '@'
        invariant
            start <= text@.len(),
            last_at_sign(text@) == last_at_sign(text@.take(start as int)),
        decreases start,
    {
        proof {
            let head = text@.take(start as int);
            assert(head.drop_last() == text@.take(start - 1));
        }
        start -= 1;
    }
    proof {
        let head = text@.take(start as int);
        if start > 0 {
            assert(head.last() == '@');
        }
        assert(last_at_sign(head) == start - 1);
    }
    let mut tail: Vec<char> = Vec::new();
    let mut i: usize = start;
    while i < text.len()
        invariant
            start <= i <= text@.len(),
            tail@ == text@.subrange(start as int, i as int),
        decreases text@.len() - i,
    {
        tail.push(text[i]);
        i += 1;
    }
    tail
}

/// Decides whether a normalized query keeps an entry, given the entry's
/// lowercase, both as characters.
pub fn keeps_entry(query: &Vec<char>, lowered_entry: &Vec<char>) -> (keep: bool)
    ensures
        keep == query_keeps(query@, lowered_entry@),
{
    if query.len() == 0 {
        false
    } else if query[0] == '/' {
        starts_with(lowered_entry, query)
    } else if has_char(query, '@') {
        let tail = tail_after_last_at(query);
        tail.len() > 0 && !has_char(&tail, '@') && contains(lowered_entry, &tail)
    } else {
        false
    }
}

/// Decides whether a normalized query keeps an entry, given the entry's
/// lowercase.
pub fn query_matches(query: &str, lowered_entry: &str) -> (keep: bool)
    ensures
        keep == query_keeps(query@, lowered_entry@),
{
    let q = chars_of(query);
    let e = chars_of(lowered_entry);
    keeps_entry(&q, &e)
}

/// The error of the prompt's interface. The completer never fails, so none
/// of its operations returns one.
#[derive(Debug)]
pub struct CompletionError;

/// A suggestion provider over a fixed, ordered corpus of strings.
#[derive(Clone)]
pub struct Completion {
    suggestions: Vec<String>,
}

impl View for Completion {
    type V = Seq<Seq<char>>;

    closed spec fn view(&self) -> Seq<Seq<char>> {
        texts(self.suggestions@)
    }
}

impl Completion {
    /// Stores the given strings, as they are and in their order, as the corpus.
    pub fn new(completions: Vec<String>) -> (completion: Self)
        ensures
            completion@ == texts(completions@),
    {
        Completion { suggestions: completions }
    }

    /// The corpus, in its order.
    pub fn corpus(&self) -> (entries: &Vec<String>)
        ensures
            texts(entries@) == self@,
    {
        &self.suggestions
    }

    /// The candidates for the line typed so far: the corpus entries that the
    /// trimmed, lowercased line keeps, in corpus order. Never fails.
    pub fn get_suggestions(&mut self, input: &str) -> (result: Result<
        Vec<String>,
        CompletionError,
    >)
        ensures
            final(self)@ == old(self)@,
            result is Ok,
            texts(result->Ok_0@) == suggestions(old(self)@, input@),
    {
        let query = input.trim().to_lowercase();
        let found = self.select(query.as_str());
        Ok(found)
    }

    /// The corpus entries that a normalized query keeps, in corpus order.
    pub fn select(&self, query: &str) -> (found: Vec<String>)
        ensures
            texts(found@) == selected(self@, query@),
    {
        let mut found: Vec<String> = Vec::new();
        if query.is_empty() {
            proof {
                lemma_empty_query(self@);
                assert(query@ =~= Seq::<char>::empty());
                assert(texts(found@) == Seq::<Seq<char>>::empty());
            }
            return found;
        }
        let q = chars_of(query);
        let ghost keeps = |entry: Seq<char>| query_keeps(query@, lowercased(entry));
        let mut i: usize = 0;
        while i < self.suggestions.len()
            invariant
                i <= self.suggestions@.len(),
                q@ == query@,
                keeps == |entry: Seq<char>| query_keeps(query@, lowercased(entry)),
                texts(found@) == kept(self@.take(i as int), keeps),
            decreases self.suggestions@.len() - i,
        {
            let entry = &self.suggestions[i];
            let lowered = entry.as_str().to_lowercase();
            let e = chars_of(lowered.as_str());
            proof {
                let head = self@.take(i + 1);
                assert(head.drop_last() == self@.take(i as int));
                assert(head.last() == entry@);
            }
            if keeps_entry(&q, &e) {
                let ghost before = found@;
                found.push(entry.clone());
                proof {
                    assert(texts(found@) == texts(before).push(entry@));
                }
            }
            i += 1;
        }
        proof {
            assert(self@.take(i as int) == self@);
        }
        found
    }

    /// The text that replaces the line when the highlighted suggestion is
    /// accepted: the line followed by the suggestion, if there is one. Never
    /// fails.
    pub fn get_completion(&mut self, text: &str, highlighted_suggestion: Option<String>) -> (result:
        Result<Option<String>, CompletionError>)
        ensures
            final(self)@ == old(self)@,
            result is Ok,
            result->Ok_0 is Some,
            result->Ok_0->Some_0@ == text@ + match highlighted_suggestion {
                Some(s) => s@,
                None => Seq::<char>::empty(),
            },
    {
        let mut replacement = text.to_owned();
        match highlighted_suggestion {
            Some(s) => {
                replacement.append(s.as_str());
            },
            None => {
                assert(replacement@ == text@ + Seq::<char>::empty());
            },
        }
        Ok(Some(replacement))
    }
}

/// The empty query keeps nothing.
pub proof fn lemma_empty_query(corpus: Seq<Seq<char>>)
    ensures
        selected(corpus, Seq::empty()) == Seq::<Seq<char>>::empty(),
    decreases corpus.len(),
{
    if corpus.len() > 0 {
        lemma_empty_query(corpus.drop_last());
    }
}

/// Two rules that agree on every entry keep the same entries.
pub proof fn lemma_kept_by_equal_rules(
    corpus: Seq<Seq<char>>,
    first: spec_fn(Seq<char>) -> bool,
    second: spec_fn(Seq<char>) -> bool,
)
    requires
        forall|entry: Seq<char>| #[trigger] first(entry) == second(entry),
    ensures
        kept(corpus, first) == kept(corpus, second),
    decreases corpus.len(),
{
    if corpus.len() > 0 {
        lemma_kept_by_equal_rules(corpus.drop_last(), first, second);
    }
}

/// The suggestions are a subsequence of the corpus: order and multiplicity
/// are those of the corpus, and no entry is rewritten.
pub proof fn lemma_suggestions_from_corpus(corpus: Seq<Seq<char>>, input: Seq<char>)
    ensures
        is_subsequence(suggestions(corpus, input), corpus),
{
    lemma_kept_is_subsequence(
        corpus,
        |entry: Seq<char>| query_keeps(normalized(input), lowercased(entry)),
    );
}

/// Whatever the rule, the entries kept are a subsequence of the corpus.
pub proof fn lemma_kept_is_subsequence(corpus: Seq<Seq<char>>, keeps: spec_fn(Seq<char>) -> bool)
    ensures
        is_subsequence(kept(corpus, keeps), corpus),
    decreases corpus.len(),
{
    if corpus.len() > 0 {
        let rest = kept(corpus.drop_last(), keeps);
        lemma_kept_is_subsequence(corpus.drop_last(), keeps);
        if keeps(corpus.last()) {
            assert(rest.push(corpus.last()).drop_last() == rest);
        }
    }
}

/// Every suggestion is an entry of the corpus.
pub proof fn lemma_suggestion_is_entry(corpus: Seq<Seq<char>>, input: Seq<char>, i: int)
    requires
        0 <= i < suggestions(corpus, input).len(),
    ensures
        corpus.contains(suggestions(corpus, input)[i]),
{
    lemma_kept_holds_entries(
        corpus,
        |entry: Seq<char>| query_keeps(normalized(input), lowercased(entry)),
        i,
    );
}

/// Whatever the rule, each entry kept is an entry of the corpus and meets
/// the rule.
pub proof fn lemma_kept_holds_entries(
    corpus: Seq<Seq<char>>,
    keeps: spec_fn(Seq<char>) -> bool,
    i: int,
)
    requires
        0 <= i < kept(corpus, keeps).len(),
    ensures
        corpus.contains(kept(corpus, keeps)[i]),
        keeps(kept(corpus, keeps)[i]),
    decreases corpus.len(),
{
    let rest = kept(corpus.drop_last(), keeps);
    if i < rest.len() {
        lemma_kept_holds_entries(corpus.drop_last(), keeps, i);
        let at = choose|at: int| 0 <= at < corpus.drop_last().len() && corpus.drop_last()[at] == rest[i];
        assert(corpus[at] == rest[i]);
    } else {
        assert(corpus[corpus.len() - 1] == corpus.last());
    }
}

/// Whatever the rule, an entry is among those kept exactly when it is an
/// entry of the corpus and meets the rule.
pub proof fn lemma_kept_membership(
    corpus: Seq<Seq<char>>,
    keeps: spec_fn(Seq<char>) -> bool,
    entry: Seq<char>,
)
    ensures
        kept(corpus, keeps).contains(entry) <==> corpus.contains(entry) && keeps(entry),
    decreases corpus.len(),
{
    let all = kept(corpus, keeps);
    if all.contains(entry) {
        let i = choose|i: int| 0 <= i < all.len() && all[i] == entry;
        lemma_kept_holds_entries(corpus, keeps, i);
    }
    if corpus.contains(entry) && keeps(entry) {
        let at = choose|at: int| 0 <= at < corpus.len() && corpus[at] == entry;
        let rest = kept(corpus.drop_last(), keeps);
        if at == corpus.len() - 1 {
            assert(all == rest.push(entry));
            assert(all[rest.len() as int] == entry);
        } else {
            assert(corpus.drop_last()[at] == entry);
            lemma_kept_membership(corpus.drop_last(), keeps, entry);
            let i = choose|i: int| 0 <= i < rest.len() && rest[i] == entry;
            assert(all[i] == entry);
        }
    }
}

/// Matching ignores case and outer whitespace: two lines with the same
/// trimmed, lowercased form have the same suggestions.
pub proof fn lemma_same_query_same_suggestions(
    corpus: Seq<Seq<char>>,
    first: Seq<char>,
    second: Seq<char>,
)
    requires
        normalized(first) == normalized(second),
    ensures
        suggestions(corpus, first) == suggestions(corpus, second),
{
}

/// A line whose query starts with `/` is answered with exactly the corpus
/// entries whose lowercase starts with the query.
pub proof fn lemma_command_suggestions(corpus: Seq<Seq<char>>, input: Seq<char>)
    requires
        normalized(input).len() > 0,
        normalized(input)[0] == '/',
    ensures
        suggestions(corpus, input) == kept(
            corpus,
            |entry: Seq<char>| is_prefix_of(normalized(input), lowercased(entry)),
        ),
{
    lemma_kept_by_equal_rules(
        corpus,
        |entry: Seq<char>| query_keeps(normalized(input), lowercased(entry)),
        |entry: Seq<char>| is_prefix_of(normalized(input), lowercased(entry)),
    );
}

/// The part after the last `@` of a text holds no `@`.
pub proof fn lemma_file_tail_has_no_at(text: Seq<char>)
    ensures
        -1 <= last_at_sign(text) < text.len(),
        last_at_sign(text) >= 0 <==> text.contains('@'),
        last_at_sign(text) >= 0 ==> text[last_at_sign(text)] == '@',
        !file_tail(text).contains('@'),
    decreases text.len(),
{
    if text.len() == 0 {
    } else if text.last() == '@' {
        assert(text[text.len() - 1] == '@');
    } else {
        let head = text.drop_last();
        lemma_file_tail_has_no_at(head);
        if head.contains('@') {
            let at = choose|at: int| 0 <= at < head.len() && head[at] == '@';
            assert(text[at] == '@');
        }
        if text.contains('@') {
            let at = choose|at: int| 0 <= at < text.len() && text[at] == '@';
            assert(head[at] == '@');
        }
        if file_tail(text).contains('@') {
            let tail = file_tail(text);
            let at = choose|at: int| 0 <= at < tail.len() && tail[at] == '@';
            if at < tail.len() - 1 {
                assert(file_tail(head)[at] == '@');
            }
        }
    }
}

/// A line whose query holds an `@`, does not start with `/`, and has
/// something after its last `@`, is answered with exactly the corpus entries
/// whose lowercase contains what follows that `@`.
pub proof fn lemma_file_suggestions(corpus: Seq<Seq<char>>, input: Seq<char>)
    requires
        normalized(input).contains('@'),
        normalized(input)[0] != '/',
        file_tail(normalized(input)).len() > 0,
    ensures
        suggestions(corpus, input) == kept(
            corpus,
            |entry: Seq<char>| occurs_in(file_tail(normalized(input)), lowercased(entry)),
        ),
{
    lemma_file_tail_has_no_at(normalized(input));
    lemma_kept_by_equal_rules(
        corpus,
        |entry: Seq<char>| query_keeps(normalized(input), lowercased(entry)),
        |entry: Seq<char>| occurs_in(file_tail(normalized(input)), lowercased(entry)),
    );
}

/// A line whose query holds an `@`, does not start with `/`, and ends with
/// its last `@`, has no suggestions; nor has one without `/` in front and
/// without `@`.
pub proof fn lemma_no_suggestions(corpus: Seq<Seq<char>>, input: Seq<char>)
    requires
        normalized(input).len() == 0 || normalized(input)[0] != '/',
        !normalized(input).contains('@') || file_tail(normalized(input)).len() == 0,
    ensures
        suggestions(corpus, input) == Seq::<Seq<char>>::empty(),
{
    lemma_kept_nothing(corpus, |entry: Seq<char>| query_keeps(normalized(input), lowercased(entry)));
}

/// A rule that holds of no entry keeps nothing.
pub proof fn lemma_kept_nothing(corpus: Seq<Seq<char>>, keeps: spec_fn(Seq<char>) -> bool)
    requires
        forall|entry: Seq<char>| !#[trigger] keeps(entry),
    ensures
        kept(corpus, keeps) == Seq::<Seq<char>>::empty(),
    decreases corpus.len(),
{
    if corpus.len() > 0 {
        lemma_kept_nothing(corpus.drop_last(), keeps);
    }
}

} // verus!
