use vstd::prelude::*;

verus! {

/// A user-defined shorthand: the first word `alias` of a line stands for `expanded`.
pub struct Alias {
    pub alias: String,
    pub expanded: String,
}

/// What one expansion step found: the alias that applies, if any, and the
/// remainder of the line after the word it replaces (the whole line when none applies).
pub struct ExpandedAlias<'a> {
    pub expansion: Option<&'a Alias>,
    pub rest: &'a str,
}

/// Whether `c` has the Unicode White_Space property, as `char::is_whitespace` says.
pub uninterp spec fn white_space(c: char) -> bool;

/// Relies on `char::is_whitespace`: a function of the character alone.
#[verifier::external_body]
fn is_whitespace(c: char) -> (r: bool)
    ensures
        r == white_space(c),
{
    c.is_whitespace()
}

/// Index of the first white-space character of `s` at or after `i`, or the length of `s`.
pub open spec fn word_end_from(s: Seq<char>, i: nat) -> nat
    decreases s.len() - i,
{
    if i >= s.len() {
        s.len()
    } else if white_space(s[i as int]) {
        i
    } else {
        word_end_from(s, i + 1)
    }
}

/// Length of the first word of `s`: everything before its first white space.
pub open spec fn word_end(s: Seq<char>) -> nat {
    word_end_from(s, 0)
}

/// The first word of `s`.
pub open spec fn first_word(s: Seq<char>) -> Seq<char> {
    s.subrange(0, word_end(s) as int)
}

/// Whether `aliases[p]` is the first alias named `name`.
pub open spec fn is_first_named(aliases: Seq<Alias>, name: Seq<char>, p: int) -> bool {
    &&& 0 <= p < aliases.len()
    &&& aliases[p].alias@ == name
    &&& forall|j: int| 0 <= j < p ==> aliases[j].alias@ != name
}

/// Whether some alias is named `name`.
pub open spec fn has_named(aliases: Seq<Alias>, name: Seq<char>) -> bool {
    exists|p: int| 0 <= p < aliases.len() && aliases[p].alias@ == name
}

/// No two aliases share a name.
pub open spec fn names_unique(aliases: Seq<Alias>) -> bool {
    forall|i: int, j: int|
        0 <= i < aliases.len() && 0 <= j < aliases.len() && i != j ==> aliases[i].alias@
            != aliases[j].alias@
}

/// Whether expansion is blocked because the previous step expanded the same word.
pub open spec fn guarded(line: Seq<char>, prev: Option<Seq<char>>) -> bool {
    prev == Some(first_word(line))
}

proof fn lemma_word_end_bound(s: Seq<char>, i: nat)
    requires
        i <= s.len(),
    ensures
        i <= word_end_from(s, i) <= s.len(),
    decreases s.len() - i,
{
    if i < s.len() && !white_space(s[i as int]) {
        lemma_word_end_bound(s, i + 1);
    }
}

/// Character index of the end of the first word of `line`.
pub(crate) fn find_word_end(line: &str) -> (r: usize)
    ensures
        r == word_end(line@),
        r <= line@.len(),
{
    let n = line.unicode_len();
    let mut i: usize = 0;
    while i < n
        invariant
            n == line@.len(),
            i <= n,
            word_end_from(line@, 0) == word_end_from(line@, i as nat),
        decreases n - i,
    {
        if is_whitespace(line.get_char(i)) {
            return i;
        }
        i = i + 1;
    }
    i
}

/// Whether two strings hold the same characters.
pub(crate) fn str_eq(a: &str, b: &str) -> (r: bool)
    ensures
        r == (a@ == b@),
{
    let n = a.unicode_len();
    if n != b.unicode_len() {
        return false;
    }
    let mut i: usize = 0;
    while i < n
        invariant
            n == a@.len() == b@.len(),
            i <= n,
            a@.subrange(0, i as int) == b@.subrange(0, i as int),
        decreases n - i,
    {
        if a.get_char(i) != b.get_char(i) {
            assert(a@[i as int] != b@[i as int]);
            return false;
        }
        assert(a@.subrange(0, i + 1) =~= a@.subrange(0, i as int).push(a@[i as int]));
        assert(b@.subrange(0, i + 1) =~= b@.subrange(0, i as int).push(b@[i as int]));
        i = i + 1;
    }
    assert(a@ =~= a@.subrange(0, n as int));
    assert(b@ =~= b@.subrange(0, n as int));
    true
}

/// Position of the first alias named `name`.
pub(crate) fn position_of(aliases: &Vec<Alias>, name: &str) -> (r: Option<usize>)
    ensures
        match r {
            Some(p) => is_first_named(aliases@, name@, p as int),
            None => !has_named(aliases@, name@),
        },
{
    let mut i: usize = 0;
    while i < aliases.len()
        invariant
            i <= aliases@.len(),
            forall|j: int| 0 <= j < i ==> aliases@[j].alias@ != name@,
        decreases aliases@.len() - i,
    {
        if str_eq(aliases[i].alias.as_str(), name) {
            return Some(i);
        }
        i = i + 1;
    }
    None
}

/// One expansion step as the caller applies it: the line with its first word
/// replaced by the alias's expansion, and the word that was expanded; none
/// where no alias applies or the guard fires.
pub open spec fn expand_step(aliases: Seq<Alias>, line: Seq<char>, prev: Option<Seq<char>>) -> Option<
    (Seq<char>, Seq<char>),
> {
    if !guarded(line, prev) && has_named(aliases, first_word(line)) {
        let p = choose|p: int| is_first_named(aliases, first_word(line), p);
        Some(
            (
                aliases[p].expanded@ + line.subrange(word_end(line) as int, line.len() as int),
                aliases[p].alias@,
            ),
        )
    } else {
        None
    }
}

/// The line and previous word after `n` expansion steps, if that many apply.
pub open spec fn expand_steps(
    aliases: Seq<Alias>,
    line: Seq<char>,
    prev: Option<Seq<char>>,
    n: nat,
) -> Option<(Seq<char>, Option<Seq<char>>)>
    decreases n,
{
    if n == 0 {
        Some((line, prev))
    } else {
        match expand_step(aliases, line, prev) {
            Some((next, word)) => expand_steps(aliases, next, Some(word), (n - 1) as nat),
            None => None,
        }
    }
}

/// Whether expansion comes to rest after exactly `n` steps.
pub open spec fn stops_after(aliases: Seq<Alias>, line: Seq<char>, prev: Option<Seq<char>>, n: nat) -> bool {
    match expand_steps(aliases, line, prev, n) {
        Some((l, p)) => expand_step(aliases, l, p) is None,
        None => false,
    }
}

/// The first word of an alias's expansion: the word that the next step looks up.
pub open spec fn head(a: Alias) -> Seq<char> {
    first_word(a.expanded@)
}

/// `rank` decreases along every chain from an alias to another alias named
/// by the first word of its expansion.
pub open spec fn ranked(aliases: Seq<Alias>, rank: spec_fn(Seq<char>) -> nat) -> bool {
    forall|i: int|
        0 <= i < aliases.len() && head(aliases[i]) != aliases[i].alias@ && has_named(
            aliases,
            head(aliases[i]),
        ) ==> rank(head(aliases[i])) < rank(#[trigger] aliases[i].alias@)
}

/// No alias chain returns to an alias it left, but for an alias whose
/// expansion begins with its own name.
pub open spec fn chains_acyclic(aliases: Seq<Alias>) -> bool {
    exists|rank: spec_fn(Seq<char>) -> nat| ranked(aliases, rank)
}

proof fn lemma_word_end_is_space(s: Seq<char>, i: nat)
    requires
        i <= s.len(),
    ensures
        word_end_from(s, i) < s.len() ==> white_space(s[word_end_from(s, i) as int]),
    decreases s.len() - i,
{
    if i < s.len() && !white_space(s[i as int]) {
        lemma_word_end_is_space(s, i + 1);
    }
}

proof fn lemma_word_end_concat(e: Seq<char>, r: Seq<char>, i: nat)
    requires
        i <= e.len(),
        r.len() == 0 || white_space(r[0]),
    ensures
        word_end_from(e + r, i) == word_end_from(e, i),
    decreases e.len() - i,
{
    if i < e.len() {
        assert((e + r)[i as int] == e[i as int]);
        if !white_space(e[i as int]) {
            lemma_word_end_concat(e, r, i + 1);
        }
    } else if r.len() > 0 {
        assert((e + r)[i as int] == r[0]);
    }
}

/// After a step, the next word looked up is the first word of the expansion used.
proof fn lemma_step_head(aliases: Seq<Alias>, line: Seq<char>, prev: Option<Seq<char>>)
    requires
        expand_step(aliases, line, prev) is Some,
    ensures
        ({
            let (next, word) = expand_step(aliases, line, prev)->0;
            let p = choose|p: int| is_first_named(aliases, first_word(line), p);
            &&& is_first_named(aliases, word, p)
            &&& first_word(next) == head(aliases[p])
        }),
{
    lemma_has_first(aliases, first_word(line));
    let p = choose|p: int| is_first_named(aliases, first_word(line), p);
    let k = word_end(line);
    lemma_word_end_bound(line, 0);
    lemma_word_end_is_space(line, 0);
    let rest = line.subrange(k as int, line.len() as int);
    let e = aliases[p].expanded@;
    if rest.len() > 0 {
        assert(rest[0] == line[k as int]);
    }
    lemma_word_end_concat(e, rest, 0);
    lemma_word_end_bound(e, 0);
    assert((e + rest).subrange(0, word_end(e) as int) =~= e.subrange(0, word_end(e) as int));
}

proof fn lemma_has_first(aliases: Seq<Alias>, name: Seq<char>)
    requires
        has_named(aliases, name),
    ensures
        exists|p: int| is_first_named(aliases, name, p),
    decreases aliases.len(),
{
    let q = choose|q: int| 0 <= q < aliases.len() && aliases[q].alias@ == name;
    if !is_first_named(aliases, name, q) {
        let t = aliases.subrange(0, q);
        let j = choose|j: int| 0 <= j < q && aliases[j].alias@ == name;
        assert(t[j] == aliases[j]);
        lemma_has_first(t, name);
        let p = choose|p: int| is_first_named(t, name, p);
        assert(t[p] == aliases[p]);
        assert forall|m: int| 0 <= m < p implies aliases[m].alias@ != name by {
            assert(t[m] == aliases[m]);
        }
        assert(is_first_named(aliases, name, p));
    }
}

/// From a line reached by expanding the alias at `p`, expansion comes to rest.
proof fn lemma_stops_after_step(
    aliases: Seq<Alias>,
    rank: spec_fn(Seq<char>) -> nat,
    line: Seq<char>,
    p: int,
)
    requires
        ranked(aliases, rank),
        0 <= p < aliases.len(),
        is_first_named(aliases, aliases[p].alias@, p),
        first_word(line) == head(aliases[p]),
    ensures
        exists|n: nat| stops_after(aliases, line, Some(aliases[p].alias@), n),
    decreases rank(aliases[p].alias@),
{
    let prev = Some(aliases[p].alias@);
    match expand_step(aliases, line, prev) {
        None => {
            assert(stops_after(aliases, line, prev, 0));
        },
        Some((next, word)) => {
            lemma_has_first(aliases, first_word(line));
            lemma_step_head(aliases, line, prev);
            let q = choose|q: int| is_first_named(aliases, first_word(line), q);
            assert(aliases[q].alias@ == head(aliases[p]));
            assert(head(aliases[p]) != aliases[p].alias@);
            assert(has_named(aliases, head(aliases[p])));
            assert(rank(head(aliases[p])) < rank(aliases[p].alias@));
            lemma_stops_after_step(aliases, rank, next, q);
            let n = choose|n: nat| stops_after(aliases, next, Some(aliases[q].alias@), n);
            assert(expand_steps(aliases, line, prev, n + 1) == expand_steps(aliases, next, Some(word), n));
            assert(stops_after(aliases, line, prev, n + 1));
        },
    }
}

/// Where no alias chain cycles through two or more aliases, repeated
/// expansion of any line, from any previous word, comes to rest after
/// finitely many steps.
pub proof fn lemma_expansion_terminates(aliases: Seq<Alias>, line: Seq<char>, prev: Option<Seq<char>>)
    requires
        chains_acyclic(aliases),
    ensures
        exists|n: nat| stops_after(aliases, line, prev, n),
{
    let rank = choose|rank: spec_fn(Seq<char>) -> nat| ranked(aliases, rank);
    match expand_step(aliases, line, prev) {
        None => {
            assert(stops_after(aliases, line, prev, 0));
        },
        Some((next, word)) => {
            lemma_has_first(aliases, first_word(line));
            lemma_step_head(aliases, line, prev);
            let p = choose|p: int| is_first_named(aliases, first_word(line), p);
            lemma_stops_after_step(aliases, rank, next, p);
            let n = choose|n: nat| stops_after(aliases, next, Some(aliases[p].alias@), n);
            assert(expand_steps(aliases, line, prev, n + 1) == expand_steps(aliases, next, Some(word), n));
            assert(stops_after(aliases, line, prev, n + 1));
        },
    }
}

} // verus!
