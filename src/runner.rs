use vstd::prelude::*;

verus! {

/// A chapter of the course. The variants are listed in registration order.
#[derive(Clone, Copy, Debug, PartialEq, Eq, Structural)]
pub enum Chapter {
    Ownership,
    Borrowing,
    Lifetime,
    PatternMatching,
}

impl Chapter {
    /// The selectors that pick this chapter, matched exactly.
    pub open spec fn spec_aliases(self) -> Seq<Seq<char>> {
        match self {
            Chapter::Ownership => seq!["01"@, "ch01"@, "ownership"@],
            Chapter::Borrowing => seq!["02"@, "ch02"@, "borrowing"@],
            Chapter::Lifetime => seq!["03"@, "ch03"@, "lifetime"@],
            Chapter::PatternMatching => seq!["04"@, "ch04"@, "pattern_matching"@],
        }
    }

    /// The topic named in the chapter's banner.
    pub open spec fn spec_topic(self) -> Seq<char> {
        match self {
            Chapter::Ownership => "ownership"@,
            Chapter::Borrowing => "borrowing"@,
            Chapter::Lifetime => "lifetimes"@,
            Chapter::PatternMatching => "pattern matching"@,
        }
    }

    pub fn aliases(self) -> (r: Vec<String>)
        ensures
            r.deep_view() == self.spec_aliases(),
    {
        let r = match self {
            Chapter::Ownership => vec![
                String::from_str("01"),
                String::from_str("ch01"),
                String::from_str("ownership"),
            ],
            Chapter::Borrowing => vec![
                String::from_str("02"),
                String::from_str("ch02"),
                String::from_str("borrowing"),
            ],
            Chapter::Lifetime => vec![
                String::from_str("03"),
                String::from_str("ch03"),
                String::from_str("lifetime"),
            ],
            Chapter::PatternMatching => vec![
                String::from_str("04"),
                String::from_str("ch04"),
                String::from_str("pattern_matching"),
            ],
        };
        assert(r.deep_view() =~= self.spec_aliases());
        r
    }

    pub fn topic(self) -> (r: &'static str)
        ensures
            r@ == self.spec_topic(),
    {
        match self {
            Chapter::Ownership => "ownership",
            Chapter::Borrowing => "borrowing",
            Chapter::Lifetime => "lifetimes",
            Chapter::PatternMatching => "pattern matching",
        }
    }
}

/// The registered chapters, in registration order.
pub open spec fn registry() -> Seq<Chapter> {
    seq![Chapter::Ownership, Chapter::Borrowing, Chapter::Lifetime, Chapter::PatternMatching]
}

pub fn chapters() -> (r: Vec<Chapter>)
    ensures
        r@ == registry(),
{
    let r = vec![Chapter::Ownership, Chapter::Borrowing, Chapter::Lifetime, Chapter::PatternMatching];
    assert(r@ =~= registry());
    r
}

pub open spec fn is_alias(selector: Seq<char>, c: Chapter) -> bool {
    c.spec_aliases().contains(selector)
}

/// The chapter whose aliases hold the selector, if there is one.
pub open spec fn chapter_of(selector: Seq<char>) -> Option<Chapter> {
    if exists|c: Chapter| is_alias(selector, c) {
        Some(choose|c: Chapter| is_alias(selector, c))
    } else {
        None
    }
}

/// No selector is an alias of two different chapters.
pub proof fn lemma_aliases_disjoint(selector: Seq<char>, c1: Chapter, c2: Chapter)
    requires
        is_alias(selector, c1),
        is_alias(selector, c2),
    ensures
        c1 == c2,
{
    reveal_strlit("01");
    reveal_strlit("ch01");
    reveal_strlit("ownership");
    reveal_strlit("02");
    reveal_strlit("ch02");
    reveal_strlit("borrowing");
    reveal_strlit("03");
    reveal_strlit("ch03");
    reveal_strlit("lifetime");
    reveal_strlit("04");
    reveal_strlit("ch04");
    reveal_strlit("pattern_matching");
    let a1 = c1.spec_aliases();
    let a2 = c2.spec_aliases();
    let i = choose|i: int| 0 <= i < a1.len() && a1[i] == selector;
    let j = choose|j: int| 0 <= j < a2.len() && a2[j] == selector;
    assert(a1[i].len() == a2[j].len());
    if c1 != c2 {
        assert(a1[i][0] != a2[j][0] || a1[i][1] != a2[j][1] || a1[i][2] != a2[j][2]
            || a1[i][3] != a2[j][3]);
    }
}

/// A selector that is an alias of a chapter picks that chapter.
pub proof fn lemma_chapter_of_alias(selector: Seq<char>, c: Chapter)
    requires
        is_alias(selector, c),
    ensures
        chapter_of(selector) == Some(c),
{
    let d = choose|d: Chapter| is_alias(selector, d);
    lemma_aliases_disjoint(selector, c, d);
}

/// Every chapter is registered, exactly once.
pub proof fn lemma_registry_complete(c: Chapter)
    ensures
        registry().contains(c),
        registry().no_duplicates(),
{
    let r = registry();
    match c {
        Chapter::Ownership => assert(r[0] == c),
        Chapter::Borrowing => assert(r[1] == c),
        Chapter::Lifetime => assert(r[2] == c),
        Chapter::PatternMatching => assert(r[3] == c),
    }
}

/// Finds the chapter that a selector picks, by an exact match against each
/// registered chapter's aliases.
pub fn lookup(selector: &String) -> (r: Option<Chapter>)
    ensures
        r == chapter_of(selector@),
{
    let chs = chapters();
    let mut i: usize = 0;
    while i < chs.len()
        invariant
            chs@ == registry(),
            0 <= i <= chs.len(),
            forall|k: int| 0 <= k < i ==> !is_alias(selector@, #[trigger] chs@[k]),
        decreases chs.len() - i,
    {
        let c = chs[i];
        let als = c.aliases();
        let mut j: usize = 0;
        while j < als.len()
            invariant
                als.deep_view() == c.spec_aliases(),
                0 <= j <= als.len(),
                forall|m: int| 0 <= m < j ==> #[trigger] als.deep_view()[m] != selector@,
            decreases als.len() - j,
        {
            if als[j] == *selector {
                assert(als.deep_view()[j as int] == selector@);
                proof {
                    lemma_chapter_of_alias(selector@, c);
                }
                return Some(c);
            }
            j += 1;
        }
        proof {
            assert forall|m: int| 0 <= m < c.spec_aliases().len() implies c.spec_aliases()[m]
                != selector@ by {
                assert(als.deep_view()[m] != selector@);
            }
        }
        i += 1;
    }
    proof {
        assert forall|c: Chapter| !is_alias(selector@, c) by {
            lemma_registry_complete(c);
            let k = choose|k: int| 0 <= k < registry().len() && registry()[k] == c;
            assert(!is_alias(selector@, chs@[k]));
        }
    }
    None
}

/// What a run does: show the usage block, or run one chapter.
#[derive(Clone, Copy, Debug, PartialEq, Eq, Structural)]
pub enum Dispatch {
    Usage,
    Run(Chapter),
}

/// The decision for the process arguments `args`; `args[0]` is the program
/// name, and `args[1]`, if present, is the selector.
pub open spec fn dispatch_of(args: Seq<Seq<char>>) -> Dispatch {
    if args.len() < 2 {
        Dispatch::Usage
    } else {
        match chapter_of(args[1]) {
            Some(c) => Dispatch::Run(c),
            None => Dispatch::Usage,
        }
    }
}

pub fn dispatch(args: &Vec<String>) -> (d: Dispatch)
    ensures
        d == dispatch_of(args.deep_view()),
{
    if args.len() < 2 {
        Dispatch::Usage
    } else {
        match lookup(&args[1]) {
            Some(c) => Dispatch::Run(c),
            None => Dispatch::Usage,
        }
    }
}

/// The usage line of one chapter: its first alias, then the others.
pub open spec fn usage_line_of(c: Chapter) -> Seq<char> {
    let a = c.spec_aliases();
    "cargo run -- "@ + a[0] + " (or "@ + a[1] + ", or "@ + a[2] + ")"@
}

/// The usage block: a heading, then one line per registered chapter, in
/// registration order.
pub open spec fn usage_of() -> Seq<Seq<char>> {
    seq!["Please specify a module to run. Examples:"@] + registry().map_values(
        |c: Chapter| usage_line_of(c),
    )
}

/// The two banner lines printed before a chapter runs.
pub open spec fn banner_of(c: Chapter) -> Seq<Seq<char>> {
    seq!["Demonstrating Rust "@ + c.spec_topic() + "!"@, "--------------"@]
}

/// The lines printed before any chapter output: the usage block, or the
/// chapter's banner.
pub open spec fn preamble_of(d: Dispatch) -> Seq<Seq<char>> {
    match d {
        Dispatch::Usage => usage_of(),
        Dispatch::Run(c) => banner_of(c),
    }
}

pub fn usage_line(c: Chapter) -> (r: String)
    ensures
        r@ == usage_line_of(c),
{
    let a = c.aliases();
    assert(a.deep_view().len() == 3);
    String::from_str("cargo run -- ").concat(a[0].as_str()).concat(" (or ").concat(
        a[1].as_str(),
    ).concat(", or ").concat(a[2].as_str()).concat(")")
}

pub fn usage() -> (r: Vec<String>)
    ensures
        r.deep_view() == usage_of(),
{
    let mut r = vec![String::from_str("Please specify a module to run. Examples:")];
    let chs = chapters();
    let mut i: usize = 0;
    while i < chs.len()
        invariant
            chs@ == registry(),
            0 <= i <= chs.len(),
            r.deep_view() =~= seq!["Please specify a module to run. Examples:"@]
                + registry().subrange(0, i as int).map_values(|c: Chapter| usage_line_of(c)),
        decreases chs.len() - i,
    {
        let line = usage_line(chs[i]);
        let ghost before = r.deep_view();
        r.push(line);
        proof {
            let f = |c: Chapter| usage_line_of(c);
            assert(r.deep_view() =~= before.push(usage_line_of(chs@[i as int])));
            assert(registry().subrange(0, i + 1) =~= registry().subrange(0, i as int).push(
                chs@[i as int],
            ));
            assert(registry().subrange(0, i + 1).map_values(f) =~= registry().subrange(
                0,
                i as int,
            ).map_values(f).push(usage_line_of(chs@[i as int])));
        }
        i += 1;
    }
    assert(registry().subrange(0, 4) =~= registry());
    r
}

pub fn banner(c: Chapter) -> (r: Vec<String>)
    ensures
        r.deep_view() == banner_of(c),
{
    let title = String::from_str("Demonstrating Rust ").concat(c.topic()).concat("!");
    let r = vec![title, String::from_str("--------------")];
    assert(r.deep_view() =~= banner_of(c));
    r
}

pub fn preamble(d: Dispatch) -> (r: Vec<String>)
    ensures
        r.deep_view() == preamble_of(d),
{
    match d {
        Dispatch::Usage => usage(),
        Dispatch::Run(c) => banner(c),
    }
}

/// Any two aliases of one chapter lead to the same run: both pick that
/// chapter, and both print the same banner before it.
pub proof fn lemma_alias_equivalence(c: Chapter, args1: Seq<Seq<char>>, args2: Seq<Seq<char>>)
    requires
        args1.len() >= 2,
        args2.len() >= 2,
        is_alias(args1[1], c),
        is_alias(args2[1], c),
    ensures
        dispatch_of(args1) == Dispatch::Run(c),
        dispatch_of(args2) == Dispatch::Run(c),
        preamble_of(dispatch_of(args1)) == preamble_of(dispatch_of(args2)),
{
    lemma_chapter_of_alias(args1[1], c);
    lemma_chapter_of_alias(args2[1], c);
}

/// A run with no selector and a run whose selector is no chapter's alias
/// print the same thing: the usage block.
pub proof fn lemma_missing_and_unknown_selector_agree(
    no_selector: Seq<Seq<char>>,
    unknown: Seq<Seq<char>>,
)
    requires
        no_selector.len() < 2,
        unknown.len() >= 2,
        forall|c: Chapter| !is_alias(unknown[1], c),
    ensures
        dispatch_of(no_selector) == Dispatch::Usage,
        dispatch_of(unknown) == Dispatch::Usage,
        preamble_of(dispatch_of(no_selector)) == preamble_of(dispatch_of(unknown)),
        preamble_of(dispatch_of(unknown)) == usage_of(),
{
}

/// The usage block lists the registered chapters, each exactly once, in
/// registration order, after its heading line.
pub proof fn lemma_usage_lists_registry()
    ensures
        usage_of().len() == registry().len() + 1,
        forall|i: int| 0 <= i < registry().len() ==> usage_of()[i + 1] == usage_line_of(registry()[i]),
        registry().no_duplicates(),
        forall|c: Chapter| #[trigger] registry().contains(c),
{
    assert forall|c: Chapter| #[trigger] registry().contains(c) by {
        lemma_registry_complete(c);
    }
    lemma_registry_complete(Chapter::Ownership);
}

/// What a run prints before any chapter output depends on its selector alone:
/// two runs with the same selector, or both with none, print the same lines.
pub proof fn lemma_output_depends_on_selector_only(args1: Seq<Seq<char>>, args2: Seq<Seq<char>>)
    requires
        args1.len() < 2 && args2.len() < 2 || args1.len() >= 2 && args2.len() >= 2 && args1[1]
            == args2[1],
    ensures
        dispatch_of(args1) == dispatch_of(args2),
        preamble_of(dispatch_of(args1)) == preamble_of(dispatch_of(args2)),
{
}

} // verus!
