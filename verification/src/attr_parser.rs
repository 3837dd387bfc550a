//! Parsing of `provides` annotation arguments into provider metadata.
//!
//! The recognized grammar is a single positional interface-type reference,
//! optionally followed by named options separated by commas: `name` sets the
//! qualifier, `scope` is `singleton` or `prototype` (default `singleton`).
//! Anything else is a malformed annotation.
use vstd::prelude::*;

verus! {

use crate::model::{Diagnostic, DiagnosticKind, DiagnosticView, ProvidesMetadata,
    ProvidesMetadataView, Scope};

/// Index of the first occurrence of `c` in `s`, or -1 when `s` has none.
pub open spec fn find_char(s: Seq<char>, c: char) -> int
    decreases s.len(),
{
    if s.len() == 0 {
        -1
    } else if s[0] == c {
        0
    } else {
        let r = find_char(s.drop_first(), c);
        if r < 0 {
            -1
        } else {
            r + 1
        }
    }
}

pub proof fn lemma_find_char_props(s: Seq<char>, c: char)
    ensures
        find_char(s, c) == -1 ==> forall|j: int| 0 <= j < s.len() ==> s[j] != c,
        find_char(s, c) != -1 ==> 0 <= find_char(s, c) < s.len() && s[find_char(s, c)] == c
            && forall|j: int| 0 <= j < find_char(s, c) ==> s[j] != c,
    decreases s.len(),
{
    if s.len() == 0 {
    } else if s[0] == c {
    } else {
        let t = s.drop_first();
        lemma_find_char_props(t, c);
        let r = find_char(t, c);
        if r < 0 {
            assert forall|j: int| 0 <= j < s.len() implies s[j] != c by {
                if j > 0 {
                    assert(t[j - 1] == s[j]);
                }
            }
        } else {
            assert(s[r + 1] == t[r]);
            assert forall|j: int| 0 <= j < r + 1 implies s[j] != c by {
                if j > 0 {
                    assert(t[j - 1] == s[j]);
                }
            }
        }
    }
}

/// The first occurrence is pinned by its prefix: if nothing before `i` is `c`
/// and `s[i]` is, the find lands on `i`.
pub proof fn lemma_find_char_at(s: Seq<char>, c: char, i: int)
    requires
        0 <= i < s.len(),
        s[i] == c,
        forall|j: int| 0 <= j < i ==> s[j] != c,
    ensures
        find_char(s, c) == i,
{
    lemma_find_char_props(s, c);
}

pub proof fn lemma_find_char_none(s: Seq<char>, c: char)
    requires
        forall|j: int| 0 <= j < s.len() ==> s[j] != c,
    ensures
        find_char(s, c) == -1,
{
    lemma_find_char_props(s, c);
}

/// `s` with its leading spaces removed.
pub open spec fn trim_front(s: Seq<char>) -> Seq<char>
    decreases s.len(),
{
    if s.len() > 0 && s[0] == ' ' {
        trim_front(s.drop_first())
    } else {
        s
    }
}

/// `s` with its trailing spaces removed.
pub open spec fn trim_back(s: Seq<char>) -> Seq<char>
    decreases s.len(),
{
    if s.len() > 0 && s[s.len() - 1] == ' ' {
        trim_back(s.drop_last())
    } else {
        s
    }
}

/// `s` with leading and trailing spaces removed.
pub open spec fn trim(s: Seq<char>) -> Seq<char> {
    trim_back(trim_front(s))
}

pub proof fn lemma_trim_front_at(s: Seq<char>, i: int)
    requires
        0 <= i <= s.len(),
        forall|j: int| 0 <= j < i ==> s[j] == ' ',
        i < s.len() ==> s[i] != ' ',
    ensures
        trim_front(s) == s.subrange(i, s.len() as int),
    decreases i,
{
    if i == 0 {
        assert(s.subrange(0, s.len() as int) =~= s);
    } else {
        assert(s.len() > 0 && s[0] == ' ');
        lemma_trim_front_at(s.drop_first(), i - 1);
        assert(s.drop_first().subrange(i - 1, s.drop_first().len() as int) =~= s.subrange(
            i,
            s.len() as int,
        ));
    }
}

pub proof fn lemma_trim_back_at(s: Seq<char>, h: int)
    requires
        0 <= h <= s.len(),
        forall|j: int| h <= j < s.len() ==> s[j] == ' ',
        h > 0 ==> s[h - 1] != ' ',
    ensures
        trim_back(s) == s.subrange(0, h),
    decreases s.len() - h,
{
    if h == s.len() {
        if s.len() > 0 && s[s.len() - 1] == ' ' {
            assert(s[h - 1] != ' ');
            assert(false);
        }
        assert(s.subrange(0, s.len() as int) =~= s);
    } else {
        assert(s[s.len() - 1] == ' ');
        lemma_trim_back_at(s.drop_last(), h);
        assert(s.drop_last().subrange(0, h) =~= s.subrange(0, h));
    }
}

/// A sequence without spaces trims to itself.
pub proof fn lemma_trim_no_spaces(s: Seq<char>)
    requires
        forall|j: int| 0 <= j < s.len() ==> s[j] != ' ',
    ensures
        trim(s) == s,
{
    lemma_trim_front_at(s, 0);
    assert(s.subrange(0, s.len() as int) =~= s);
    lemma_trim_back_at(s, s.len() as int);
}

/// The pieces of `s` between its commas, in order; a `s` without commas is
/// one piece. There is always at least one piece.
pub open spec fn split_commas(s: Seq<char>) -> Seq<Seq<char>>
    decreases s.len(),
{
    let i = find_char(s, ',');
    if 0 <= i < s.len() {
        seq![s.subrange(0, i)] + split_commas(s.subrange(i + 1, s.len() as int))
    } else {
        seq![s]
    }
}

pub proof fn lemma_split_commas_no_comma(s: Seq<char>)
    requires
        forall|j: int| 0 <= j < s.len() ==> s[j] != ',',
    ensures
        split_commas(s) == seq![s],
{
    lemma_find_char_none(s, ',');
}

/// Splitting around the first comma: a comma-free head followed by a comma
/// contributes the head as the first piece.
pub proof fn lemma_split_commas_step(head: Seq<char>, tail: Seq<char>)
    requires
        forall|j: int| 0 <= j < head.len() ==> head[j] != ',',
    ensures
        split_commas(head + seq![','] + tail) == seq![head] + split_commas(tail),
{
    let s = head + seq![','] + tail;
    assert(s[head.len() as int] == ',');
    assert forall|j: int| 0 <= j < head.len() implies s[j] != ',' by {
        assert(s[j] == head[j]);
    }
    lemma_find_char_at(s, ',', head.len() as int);
    assert(s.subrange(0, head.len() as int) =~= head);
    assert(s.subrange(head.len() as int + 1, s.len() as int) =~= tail);
}

/// Finds the first occurrence of `c` in `s`.
pub fn find_char_exec(s: &str, c: char) -> (r: Option<usize>)
    ensures
        match r {
            Some(i) => find_char(s@, c) == i,
            None => find_char(s@, c) == -1,
        },
{
    let n = s.unicode_len();
    let mut i: usize = 0;
    while i < n
        invariant
            n == s@.len(),
            0 <= i <= n,
            forall|j: int| 0 <= j < i ==> s@[j] != c,
        decreases n - i,
    {
        if s.get_char(i) == c {
            proof {
                lemma_find_char_at(s@, c, i as int);
            }
            return Some(i);
        }
        i = i + 1;
    }
    proof {
        lemma_find_char_none(s@, c);
    }
    None
}

/// Removes leading and trailing spaces.
pub fn trim_exec(s: &str) -> (r: String)
    ensures
        r@ == trim(s@),
{
    let n = s.unicode_len();
    let mut lo: usize = 0;
    while lo < n && s.get_char(lo) == ' '
        invariant
            n == s@.len(),
            0 <= lo <= n,
            forall|j: int| 0 <= j < lo ==> s@[j] == ' ',
        decreases n - lo,
    {
        lo = lo + 1;
    }
    let mut hi: usize = n;
    while hi > lo && s.get_char(hi - 1) == ' '
        invariant
            n == s@.len(),
            lo <= hi <= n,
            forall|j: int| 0 <= j < lo ==> s@[j] == ' ',
            forall|j: int| hi <= j < n ==> s@[j] == ' ',
        decreases hi,
    {
        hi = hi - 1;
    }
    proof {
        lemma_trim_front_at(s@, lo as int);
        let t = s@.subrange(lo as int, n as int);
        lemma_trim_back_at(t, hi - lo);
        assert(t.subrange(0, hi - lo) =~= s@.subrange(lo as int, hi as int));
    }
    let piece = s.substring_char(lo, hi);
    String::from_str(piece)
}

/// Whether the text is a well-formed type reference, as the host language's
/// parser decides it.
pub uninterp spec fn type_ok(s: Seq<char>) -> bool;

/// Relies on syn::parse_str::<syn::Type>: whether a text parses as a type
/// reference is a function of the text alone, and the call never panics.
#[verifier::external_body]
fn syn_parses_as_type(s: &str) -> (r: bool)
    ensures
        r == type_ok(s@),
{
    syn::parse_str::<syn::Type>(s).is_ok()
}

pub open spec fn diag_missing_interface() -> DiagnosticView {
    DiagnosticView {
        kind: DiagnosticKind::MalformedAnnotation,
        message: "provides needs an interface type as its first argument"@,
    }
}

pub open spec fn diag_bad_interface() -> DiagnosticView {
    DiagnosticView {
        kind: DiagnosticKind::MalformedAnnotation,
        message: "the first argument of provides is not a type reference"@,
    }
}

pub open spec fn diag_unrecognized_option() -> DiagnosticView {
    DiagnosticView {
        kind: DiagnosticKind::MalformedAnnotation,
        message: "provides accepts only the named options name and scope"@,
    }
}

pub open spec fn diag_empty_name() -> DiagnosticView {
    DiagnosticView {
        kind: DiagnosticKind::MalformedAnnotation,
        message: "the name option of provides needs a non-empty value"@,
    }
}

pub open spec fn diag_bad_scope() -> DiagnosticView {
    DiagnosticView {
        kind: DiagnosticKind::MalformedAnnotation,
        message: "the scope option of provides is either singleton or prototype"@,
    }
}

fn make_diag(message: &str) -> (d: Diagnostic)
    ensures
        d@ == (DiagnosticView { kind: DiagnosticKind::MalformedAnnotation, message: message@ }),
{
    Diagnostic { kind: DiagnosticKind::MalformedAnnotation, message: String::from_str(message) }
}

/// A named option recognized by the `provides` grammar.
pub enum OptionSettingView {
    Qualifier(Seq<char>),
    ScopeSetting(Scope),
}

/// One piece after the interface reference: `key : value` with a recognized
/// key and a value meeting that key's own grammar.
pub open spec fn parse_option_spec(p: Seq<char>) -> Result<OptionSettingView, DiagnosticView> {
    let i = find_char(p, ':');
    if i < 0 {
        Err(diag_unrecognized_option())
    } else {
        let key = trim(p.subrange(0, i));
        let value = trim(p.subrange(i + 1, p.len() as int));
        if key == "name"@ {
            if value.len() > 0 {
                Ok(OptionSettingView::Qualifier(value))
            } else {
                Err(diag_empty_name())
            }
        } else if key == "scope"@ {
            if value == "singleton"@ {
                Ok(OptionSettingView::ScopeSetting(Scope::Singleton))
            } else if value == "prototype"@ {
                Ok(OptionSettingView::ScopeSetting(Scope::Prototype))
            } else {
                Err(diag_bad_scope())
            }
        } else {
            Err(diag_unrecognized_option())
        }
    }
}

pub open spec fn apply_option_spec(m: ProvidesMetadataView, o: OptionSettingView) -> ProvidesMetadataView {
    match o {
        OptionSettingView::Qualifier(q) => ProvidesMetadataView {
            interface: m.interface,
            qualifier: Some(q),
            scope: m.scope,
        },
        OptionSettingView::ScopeSetting(sc) => ProvidesMetadataView {
            interface: m.interface,
            qualifier: m.qualifier,
            scope: sc,
        },
    }
}

/// Folds the named options over the metadata, left to right; the first
/// malformed option ends the parse. A later option overrides an earlier one
/// with the same key.
pub open spec fn apply_options_spec(m: ProvidesMetadataView, rest: Seq<Seq<char>>) -> Result<
    ProvidesMetadataView,
    DiagnosticView,
>
    decreases rest.len(),
{
    if rest.len() == 0 {
        Ok(m)
    } else {
        match parse_option_spec(rest[0]) {
            Err(d) => Err(d),
            Ok(o) => apply_options_spec(apply_option_spec(m, o), rest.drop_first()),
        }
    }
}

/// The whole recognized grammar of `provides` arguments: a positional
/// interface type reference, then named options. The scope defaults to
/// singleton and the qualifier to none.
pub open spec fn parse_provides_spec(s: Seq<char>) -> Result<ProvidesMetadataView, DiagnosticView> {
    let pieces = split_commas(s);
    let interface = trim(pieces[0]);
    if interface.len() == 0 {
        Err(diag_missing_interface())
    } else if !type_ok(interface) {
        Err(diag_bad_interface())
    } else {
        apply_options_spec(
            ProvidesMetadataView { interface, qualifier: None, scope: Scope::Singleton },
            pieces.drop_first(),
        )
    }
}

/// A well-formed bare `provides` argument — a type reference holding no
/// comma, colon or space — parses to that interface with no qualifier and
/// the default singleton scope.
pub proof fn lemma_parse_bare_interface(s: Seq<char>)
    requires
        s.len() > 0,
        forall|j: int| 0 <= j < s.len() ==> s[j] != ',' && s[j] != ' ',
        type_ok(s),
    ensures
        parse_provides_spec(s) == Ok::<ProvidesMetadataView, DiagnosticView>(
            ProvidesMetadataView { interface: s, qualifier: None, scope: Scope::Singleton },
        ),
{
    lemma_split_commas_no_comma(s);
    lemma_trim_no_spaces(s);
    assert(split_commas(s)[0] == s);
    assert(split_commas(s).drop_first() =~= Seq::<Seq<char>>::empty());
}

/// Asking for prototype scope parses: a well-formed bare interface argument
/// followed by `, scope: prototype` yields the same metadata with the
/// prototype scope.
pub proof fn lemma_parse_scope_prototype(s: Seq<char>)
    requires
        s.len() > 0,
        forall|j: int| 0 <= j < s.len() ==> s[j] != ',' && s[j] != ' ',
        type_ok(s),
    ensures
        parse_provides_spec(s + ", scope: prototype"@) == Ok::<
            ProvidesMetadataView,
            DiagnosticView,
        >(ProvidesMetadataView { interface: s, qualifier: None, scope: Scope::Prototype }),
{
    reveal_strlit(", scope: prototype");
    reveal_strlit(" scope: prototype");
    reveal_strlit(" scope");
    reveal_strlit("scope");
    reveal_strlit(" prototype");
    reveal_strlit("prototype");
    reveal_strlit("name");
    reveal_strlit("singleton");
    let tail = " scope: prototype"@;
    let t = s + ", scope: prototype"@;
    assert(t =~= s + seq![','] + tail);
    lemma_split_commas_step(s, tail);
    lemma_split_commas_no_comma(tail);
    let pieces = split_commas(t);
    assert(pieces == seq![s] + seq![tail]);
    assert(pieces[0] == s);
    lemma_trim_no_spaces(s);
    assert(tail[6] == ':');
    lemma_find_char_at(tail, ':', 6);
    let key_raw = tail.subrange(0, 6);
    assert(key_raw =~= " scope"@);
    lemma_trim_front_at(" scope"@, 1);
    assert(" scope"@.subrange(1, 6) =~= "scope"@);
    lemma_trim_back_at("scope"@, 5);
    assert("scope"@.subrange(0, 5) =~= "scope"@);
    assert(trim(key_raw) == "scope"@);
    let value_raw = tail.subrange(7, 17);
    assert(value_raw =~= " prototype"@);
    lemma_trim_front_at(" prototype"@, 1);
    assert(" prototype"@.subrange(1, 10) =~= "prototype"@);
    lemma_trim_back_at("prototype"@, 9);
    assert("prototype"@.subrange(0, 9) =~= "prototype"@);
    assert(trim(value_raw) == "prototype"@);
    assert(parse_option_spec(tail) == Ok::<OptionSettingView, DiagnosticView>(
        OptionSettingView::ScopeSetting(Scope::Prototype),
    ));
    assert(pieces.drop_first() =~= seq![tail]);
    assert(seq![tail].drop_first() =~= Seq::<Seq<char>>::empty());
    let m2 = ProvidesMetadataView { interface: s, qualifier: None, scope: Scope::Prototype };
    assert(apply_options_spec(m2, Seq::<Seq<char>>::empty()) == Ok::<
        ProvidesMetadataView,
        DiagnosticView,
    >(m2));
    let base = ProvidesMetadataView { interface: s, qualifier: None, scope: Scope::Singleton };
    assert(apply_option_spec(base, OptionSettingView::ScopeSetting(Scope::Prototype)) == m2);
    assert(apply_options_spec(base, seq![tail]) == Ok::<ProvidesMetadataView, DiagnosticView>(m2));
}

/// An unrecognized named option is rejected, never silently ignored: a
/// piece with no colon, or whose key is neither `name` nor `scope`, parses
/// to the unrecognized-option diagnostic.
pub proof fn lemma_unrecognized_option_rejected(p: Seq<char>)
    ensures
        find_char(p, ':') < 0 ==> parse_option_spec(p) == Err::<
            OptionSettingView,
            DiagnosticView,
        >(diag_unrecognized_option()),
        ({
            let i = find_char(p, ':');
            i >= 0 && trim(p.subrange(0, i)) != "name"@ && trim(p.subrange(0, i)) != "scope"@
        }) ==> parse_option_spec(p) == Err::<OptionSettingView, DiagnosticView>(
            diag_unrecognized_option(),
        ),
{
}

/// The first malformed option ends the parse with that option's own
/// diagnostic, whatever follows it.
pub proof fn lemma_malformed_option_halts(
    m: ProvidesMetadataView,
    rest: Seq<Seq<char>>,
    k: int,
)
    requires
        0 <= k < rest.len(),
        forall|j: int| 0 <= j < k ==> parse_option_spec(#[trigger] rest[j]) is Ok,
        parse_option_spec(rest[k]) is Err,
    ensures
        apply_options_spec(m, rest) == Err::<ProvidesMetadataView, DiagnosticView>(
            parse_option_spec(rest[k])->Err_0,
        ),
    decreases k,
{
    if k == 0 {
    } else {
        let o = parse_option_spec(rest[0])->Ok_0;
        assert forall|j: int| 0 <= j < k - 1 implies parse_option_spec(
            #[trigger] rest.drop_first()[j],
        ) is Ok by {
            assert(rest.drop_first()[j] == rest[j + 1]);
        }
        assert(rest.drop_first()[k - 1] == rest[k]);
        lemma_malformed_option_halts(apply_option_spec(m, o), rest.drop_first(), k - 1);
    }
}

/// Character-for-character string comparison.
pub fn str_eq(a: &str, b: &str) -> (r: bool)
    ensures
        r == (a@ == b@),
{
    let na = a.unicode_len();
    let nb = b.unicode_len();
    if na != nb {
        proof {
            assert(a@.len() != b@.len());
        }
        return false;
    }
    let mut i: usize = 0;
    while i < na
        invariant
            na == a@.len(),
            na == b@.len(),
            0 <= i <= na,
            forall|j: int| 0 <= j < i ==> a@[j] == b@[j],
        decreases na - i,
    {
        if a.get_char(i) != b.get_char(i) {
            return false;
        }
        i = i + 1;
    }
    proof {
        assert(a@ =~= b@);
    }
    true
}

/// Parses raw `provides` argument text into provider metadata, or the
/// diagnostic of the first rule the text breaks.
pub fn parse_provides_attr(attr: &str) -> (res: Result<ProvidesMetadata, Diagnostic>)
    ensures
        match res {
            Ok(m) => parse_provides_spec(attr@) == Ok::<ProvidesMetadataView, DiagnosticView>(m@),
            Err(d) => parse_provides_spec(attr@) == Err::<ProvidesMetadataView, DiagnosticView>(
                d@,
            ),
        },
{
    let ghost pieces_v = split_commas(attr@);
    let pieces = split_commas_exec(attr);
    proof {
        assert(pieces.deep_view().len() >= 1);
    }
    let interface = trim_exec(pieces[0].as_str());
    if interface.as_str().unicode_len() == 0 {
        return Err(make_diag("provides needs an interface type as its first argument"));
    }
    if !syn_parses_as_type(interface.as_str()) {
        return Err(make_diag("the first argument of provides is not a type reference"));
    }
    let mut meta = ProvidesMetadata { interface, qualifier: None, scope: Scope::Singleton };
    let ghost base: ProvidesMetadataView = meta@;
    proof {
        assert(pieces_v.skip(1) =~= pieces_v.drop_first());
    }
    let mut i: usize = 1;
    while i < pieces.len()
        invariant
            pieces.deep_view() == pieces_v,
            1 <= i <= pieces.len(),
            apply_options_spec(meta@, pieces_v.skip(i as int)) == apply_options_spec(
                base,
                pieces_v.drop_first(),
            ),
            parse_provides_spec(attr@) == apply_options_spec(base, pieces_v.drop_first()),
        decreases pieces.len() - i,
    {
        let ghost rest = pieces_v.skip(i as int);
        proof {
            assert(rest.len() > 0);
            assert(rest[0] == pieces_v[i as int]);
            assert(rest.drop_first() =~= pieces_v.skip(i as int + 1));
        }
        let p = pieces[i].as_str();
        match find_char_exec(p, ':') {
            None => {
                return Err(make_diag("provides accepts only the named options name and scope"));
            },
            Some(ci) => {
                proof {
                    lemma_find_char_props(p@, ':');
                }
                let n = p.unicode_len();
                let key = trim_exec(p.substring_char(0, ci));
                let value = trim_exec(p.substring_char(ci + 1, n));
                if str_eq(key.as_str(), "name") {
                    if value.as_str().unicode_len() == 0 {
                        return Err(
                            make_diag("the name option of provides needs a non-empty value"),
                        );
                    }
                    meta = ProvidesMetadata {
                        interface: meta.interface,
                        qualifier: Some(value),
                        scope: meta.scope,
                    };
                } else if str_eq(key.as_str(), "scope") {
                    if str_eq(value.as_str(), "singleton") {
                        meta = ProvidesMetadata {
                            interface: meta.interface,
                            qualifier: meta.qualifier,
                            scope: Scope::Singleton,
                        };
                    } else if str_eq(value.as_str(), "prototype") {
                        meta = ProvidesMetadata {
                            interface: meta.interface,
                            qualifier: meta.qualifier,
                            scope: Scope::Prototype,
                        };
                    } else {
                        return Err(
                            make_diag(
                                "the scope option of provides is either singleton or prototype",
                            ),
                        );
                    }
                } else {
                    return Err(
                        make_diag("provides accepts only the named options name and scope"),
                    );
                }
            },
        }
        i = i + 1;
    }
    proof {
        assert(pieces_v.skip(i as int) =~= Seq::<Seq<char>>::empty());
    }
    Ok(meta)
}

/// Splits `s` into its pieces between commas.
pub fn split_commas_exec(s: &str) -> (r: Vec<String>)
    ensures
        r.deep_view() == split_commas(s@),
    decreases s@.len(),
{
    let n = s.unicode_len();
    match find_char_exec(s, ',') {
        None => {
            let mut one: Vec<String> = Vec::new();
            one.push(String::from_str(s));
            proof {
                lemma_find_char_props(s@, ',');
                assert(one.deep_view() =~= seq![s@]);
            }
            one
        },
        Some(i) => {
            proof {
                lemma_find_char_props(s@, ',');
            }
            let head = s.substring_char(0, i);
            let tail = s.substring_char(i + 1, n);
            let mut pieces = split_commas_exec(tail);
            let ghost rest = pieces.deep_view();
            pieces.insert(0, String::from_str(head));
            proof {
                assert(pieces.deep_view() =~= seq![head@] + rest);
            }
            pieces
        },
    }
}

} // verus!
