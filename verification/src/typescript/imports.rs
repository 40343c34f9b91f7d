//! The per-file import map, and the wrapper-call analyzer built on it.
//!
//! Import specifiers are classified into a canonical source: an external
//! package, kept verbatim, or a project-relative path, resolved through
//! `.`/`..` segments against the importing file's own directory and clamped
//! to the project root. A wrapper call is turned into a label by tracing the
//! wrapped value through the map, with explicit name overrides winning over
//! whatever the trace computes.
use vstd::prelude::*;
use vstd::string::StrSliceExecFns;

use crate::strutil::join_parts;
use crate::strutil::spec_join_parts;
use crate::strutil::spec_split;
use crate::strutil::split_on;
use crate::strutil::str_eq;
use crate::strutil::starts_with_str;
use crate::strutil::concat2;
use crate::ExpectedAmLabel;
use crate::LabelModel;

verus! {

/// A plain identifier of the analyzed language.
#[derive(Clone, Debug)]
pub struct Identifier(pub String);

impl View for Identifier {
    type V = Seq<char>;

    open spec fn view(&self) -> Seq<char> {
        self.0@
    }
}

impl DeepView for Identifier {
    type V = Seq<char>;

    open spec fn deep_view(&self) -> Seq<char> {
        self.0@
    }
}

impl PartialEq for Identifier {
    fn eq(&self, other: &Self) -> (r: bool) {
        str_eq(self.0.as_str(), other.0.as_str())
    }
}

impl vstd::std_specs::cmp::PartialEqSpecImpl for Identifier {
    open spec fn obeys_eq_spec() -> bool {
        true
    }

    open spec fn eq_spec(&self, other: &Self) -> bool {
        self@ == other@
    }
}

impl Identifier {
    /// An identifier with the given text.
    pub fn from(s: &str) -> (r: Identifier)
        ensures
            r@ == s@,
    {
        Identifier(s.to_owned())
    }

    /// A copy with the same text.
    pub fn clone_id(&self) -> (r: Identifier)
        ensures
            r@ == self@,
    {
        Identifier(self.0.clone())
    }
}

/// Where an imported identifier comes from: an external package, a path
/// inside the project, or a path that left the importing file's directory
/// tree through the project root.
#[derive(Clone, Debug)]
pub enum CanonicalSource {
    External(String),
    Relative(String),
    Sibling(String),
}

/// The mathematical value of a `CanonicalSource`.
pub enum SourceModel {
    External { path: Seq<char> },
    Relative { path: Seq<char> },
    Sibling { path: Seq<char> },
}

impl DeepView for CanonicalSource {
    type V = SourceModel;

    open spec fn deep_view(&self) -> SourceModel {
        match self {
            CanonicalSource::External(p) => SourceModel::External { path: p@ },
            CanonicalSource::Relative(p) => SourceModel::Relative { path: p@ },
            CanonicalSource::Sibling(p) => SourceModel::Sibling { path: p@ },
        }
    }
}

impl PartialEq for CanonicalSource {
    fn eq(&self, other: &Self) -> (r: bool) {
        match (self, other) {
            (CanonicalSource::External(a), CanonicalSource::External(b)) => str_eq(
                a.as_str(),
                b.as_str(),
            ),
            (CanonicalSource::Relative(a), CanonicalSource::Relative(b)) => str_eq(
                a.as_str(),
                b.as_str(),
            ),
            (CanonicalSource::Sibling(a), CanonicalSource::Sibling(b)) => str_eq(
                a.as_str(),
                b.as_str(),
            ),
            _ => false,
        }
    }
}

impl vstd::std_specs::cmp::PartialEqSpecImpl for CanonicalSource {
    open spec fn obeys_eq_spec() -> bool {
        true
    }

    open spec fn eq_spec(&self, other: &Self) -> bool {
        self.deep_view() == other.deep_view()
    }
}

/// The rendering of a canonical source as a label's module string: a fixed
/// tag prefix for external packages, the bare path for project-relative
/// ones, and a distinct tag for paths that went through the project root.
pub open spec fn spec_render(src: SourceModel) -> Seq<char> {
    match src {
        SourceModel::External { path } => "ext://"@ + path,
        SourceModel::Relative { path } => path,
        SourceModel::Sibling { path } => "sibling://"@ + path,
    }
}

impl CanonicalSource {
    /// Reads a canonical source back from its rendered form.
    pub fn from(s: &str) -> (r: CanonicalSource)
        ensures
            spec_render(r.deep_view()) == s@,
    {
        proof {
            reveal_strlit("ext://");
            reveal_strlit("sibling://");
        }
        if starts_with_str(s, "ext://") {
            let rest = s.substring_char(6, s.unicode_len());
            let r = CanonicalSource::External(rest.to_owned());
            proof {
                assert("ext://"@ + s@.subrange(6, s@.len() as int) =~= s@);
            }
            r
        } else if starts_with_str(s, "sibling://") {
            let rest = s.substring_char(10, s.unicode_len());
            let r = CanonicalSource::Sibling(rest.to_owned());
            proof {
                assert("sibling://"@ + s@.subrange(10, s@.len() as int) =~= s@);
            }
            r
        } else {
            CanonicalSource::Relative(s.to_owned())
        }
    }

    /// Renders the source as a label's module string.
    pub fn render(&self) -> (r: String)
        ensures
            r@ == spec_render(self.deep_view()),
    {
        match self {
            CanonicalSource::External(p) => concat2("ext://", p.as_str()),
            CanonicalSource::Relative(p) => p.clone(),
            CanonicalSource::Sibling(p) => concat2("sibling://", p.as_str()),
        }
    }

    /// A copy with the same value.
    pub fn clone_source(&self) -> (r: CanonicalSource)
        ensures
            r.deep_view() == self.deep_view(),
    {
        match self {
            CanonicalSource::External(p) => CanonicalSource::External(p.clone()),
            CanonicalSource::Relative(p) => CanonicalSource::Relative(p.clone()),
            CanonicalSource::Sibling(p) => CanonicalSource::Sibling(p.clone()),
        }
    }
}

/// Keeps the nonempty parts of a split path, dropping the artifacts of
/// leading, trailing, or doubled separators.
pub open spec fn spec_keep_nonempty(parts: Seq<Seq<char>>) -> Seq<Seq<char>>
    decreases parts.len(),
{
    if parts.len() == 0 {
        Seq::empty()
    } else if parts.last().len() > 0 {
        spec_keep_nonempty(parts.drop_last()).push(parts.last())
    } else {
        spec_keep_nonempty(parts.drop_last())
    }
}

/// One step of `.`/`..` path algebra over a directory stack, together with
/// the flag that records whether resolution ever reached the project root by
/// popping the stack empty.
pub open spec fn spec_walk_segments(
    stack: Seq<Seq<char>>,
    through_root: bool,
    segs: Seq<Seq<char>>,
) -> (Seq<Seq<char>>, bool)
    decreases segs.len(),
{
    if segs.len() == 0 {
        (stack, through_root)
    } else {
        let seg = segs[0];
        let rest = segs.drop_first();
        if seg.len() == 0 || seg == seq!['.'] {
            spec_walk_segments(stack, through_root, rest)
        } else if seg == seq!['.', '.'] {
            if stack.len() == 0 {
                spec_walk_segments(stack, true, rest)
            } else {
                spec_walk_segments(stack.drop_last(), through_root || stack.len() == 1, rest)
            }
        } else {
            spec_walk_segments(stack.push(seg), through_root, rest)
        }
    }
}

/// The view of an optional directory string.
pub open spec fn spec_dir_view(dir: Option<&str>) -> Option<Seq<char>> {
    match dir {
        Some(d) => Some(d@),
        None => None,
    }
}

/// Whether a module specifier is a relative one: it begins with a `.`.
pub open spec fn spec_is_relative(sp: Seq<char>) -> bool {
    sp.len() > 0 && sp[0] == '.'
}

/// The classification of a module specifier against the importing file's
/// directory, given as a path relative to the project root.
pub open spec fn spec_classify(dir: Option<Seq<char>>, sp: Seq<char>) -> SourceModel {
    if spec_is_relative(sp) {
        let base = match dir {
            Some(d) => spec_keep_nonempty(spec_split(d, '/')),
            None => Seq::empty(),
        };
        let walked = spec_walk_segments(base, false, spec_split(sp, '/'));
        let path = spec_join_parts(walked.0, "/"@);
        if walked.1 {
            SourceModel::Sibling { path }
        } else {
            SourceModel::Relative { path }
        }
    } else {
        SourceModel::External { path: sp }
    }
}

/// Classifies a module specifier: a specifier that does not begin with `.`
/// names an external package and is kept verbatim; a relative one is
/// resolved through `.`/`..` segments against the importing file's own
/// directory, clamped to the project root, and a resolution that went
/// through the root is tagged as a sibling path.
pub fn classify_specifier(dir: Option<&str>, specifier: &str) -> (r: CanonicalSource)
    ensures
        r.deep_view() == spec_classify(spec_dir_view(dir), specifier@),
{
    let n = specifier.unicode_len();
    if n == 0 || specifier.get_char(0) != '.' {
        return CanonicalSource::External(specifier.to_owned());
    }
    let mut stack: Vec<String> = Vec::new();
    let ghost gdir = spec_dir_view(dir);
    match dir {
        Some(d) => {
            let raw = split_on(d, '/');
            let mut i: usize = 0;
            while i < raw.len()
                invariant
                    i <= raw.len(),
                    stack.deep_view() == spec_keep_nonempty(raw.deep_view().take(i as int)),
                decreases raw.len() - i,
            {
                proof {
                    assert(raw.deep_view().take(i as int + 1).drop_last() =~= raw.deep_view().take(
                        i as int,
                    ));
                    assert(raw.deep_view().take(i as int + 1).last() == raw.deep_view()[i as int]);
                }
                if raw[i].as_str().unicode_len() > 0 {
                    let ghost old_stack = stack.deep_view();
                    stack.push(raw[i].clone());
                    proof {
                        assert(stack.deep_view() =~= old_stack.push(raw.deep_view()[i as int]));
                    }
                }
                i += 1;
            }
            proof {
                assert(raw.deep_view().take(raw.len() as int) =~= raw.deep_view());
            }
        },
        None => {
            proof {
                assert(stack.deep_view() =~= Seq::<Seq<char>>::empty());
            }
        },
    }
    let ghost base = stack.deep_view();
    let segs = split_on(specifier, '/');
    let mut through_root = false;
    let mut j: usize = 0;
    proof {
        assert(segs.deep_view().skip(0) =~= segs.deep_view());
    }
    while j < segs.len()
        invariant
            j <= segs.len(),
            spec_walk_segments(base, false, segs.deep_view()) == spec_walk_segments(
                stack.deep_view(),
                through_root,
                segs.deep_view().skip(j as int),
            ),
        decreases segs.len() - j,
    {
        proof {
            assert(segs.deep_view().skip(j as int).len() > 0);
            assert(segs.deep_view().skip(j as int)[0] == segs.deep_view()[j as int]);
            assert(segs.deep_view().skip(j as int).drop_first() =~= segs.deep_view().skip(
                j as int + 1,
            ));
        }
        let seg = &segs[j];
        let is_dot = str_eq(seg.as_str(), ".");
        let is_dotdot = str_eq(seg.as_str(), "..");
        proof {
            reveal_strlit(".");
            reveal_strlit("..");
            assert("."@ =~= seq!['.']);
            assert(".."@ =~= seq!['.', '.']);
        }
        if seg.as_str().unicode_len() == 0 || is_dot {
        } else if is_dotdot {
            if stack.len() == 0 {
                through_root = true;
            } else {
                let ghost old_stack = stack.deep_view();
                let was_last = stack.len() == 1;
                stack.pop();
                if was_last {
                    through_root = true;
                }
                proof {
                    assert(stack.deep_view() =~= old_stack.drop_last());
                }
            }
        } else {
            let ghost old_stack = stack.deep_view();
            stack.push(seg.clone());
            proof {
                assert(stack.deep_view() =~= old_stack.push(segs.deep_view()[j as int]));
            }
        }
        j += 1;
    }
    proof {
        assert(segs.deep_view().skip(segs.len() as int) =~= Seq::<Seq<char>>::empty());
    }
    let path = join_parts(&stack, "/");
    if through_root {
        CanonicalSource::Sibling(path)
    } else {
        CanonicalSource::Relative(path)
    }
}

/// One entry of the plain-identifier table: the local binding, the exported
/// name it stands for, and where it comes from.
#[derive(Debug)]
pub struct IdentEntry {
    pub local: Identifier,
    pub original: Identifier,
    pub source: CanonicalSource,
}

/// The mathematical value of an `IdentEntry`.
pub struct IdentEntryModel {
    pub local: Seq<char>,
    pub original: Seq<char>,
    pub source: SourceModel,
}

impl DeepView for IdentEntry {
    type V = IdentEntryModel;

    open spec fn deep_view(&self) -> IdentEntryModel {
        IdentEntryModel {
            local: self.local@,
            original: self.original@,
            source: self.source.deep_view(),
        }
    }
}

/// One entry of the namespace table: the alias that stands for "many members
/// of one source", and that source.
#[derive(Debug)]
pub struct NsEntry {
    pub alias: Identifier,
    pub source: CanonicalSource,
}

/// The mathematical value of an `NsEntry`.
pub struct NsEntryModel {
    pub alias: Seq<char>,
    pub source: SourceModel,
}

impl DeepView for NsEntry {
    type V = NsEntryModel;

    open spec fn deep_view(&self) -> NsEntryModel {
        NsEntryModel { alias: self.alias@, source: self.source.deep_view() }
    }
}

/// The per-file import map: one table keyed by plain identifier, one keyed
/// by namespace alias.
#[derive(Debug)]
pub struct ImportsMap {
    pub identifiers: Vec<IdentEntry>,
    pub namespaces: Vec<NsEntry>,
}

/// First-match lookup in the plain-identifier table.
pub open spec fn spec_find_identifier(entries: Seq<IdentEntryModel>, key: Seq<char>) -> Option<
    IdentEntryModel,
>
    decreases entries.len(),
{
    if entries.len() == 0 {
        None
    } else if entries[0].local == key {
        Some(entries[0])
    } else {
        spec_find_identifier(entries.drop_first(), key)
    }
}

/// First-match lookup in the namespace table.
pub open spec fn spec_find_namespace(entries: Seq<NsEntryModel>, key: Seq<char>) -> Option<
    NsEntryModel,
>
    decreases entries.len(),
{
    if entries.len() == 0 {
        None
    } else if entries[0].alias == key {
        Some(entries[0])
    } else {
        spec_find_namespace(entries.drop_first(), key)
    }
}

proof fn lemma_find_identifier_skip(entries: Seq<IdentEntryModel>, key: Seq<char>, i: int)
    requires
        0 <= i <= entries.len(),
        forall|j: int| 0 <= j < i ==> (#[trigger] entries[j]).local != key,
    ensures
        spec_find_identifier(entries, key) == spec_find_identifier(entries.skip(i), key),
    decreases i,
{
    if i > 0 {
        assert(entries.len() > 0);
        assert(entries[0].local != key);
        lemma_find_identifier_skip(entries.drop_first(), key, i - 1);
        assert(entries.drop_first().skip(i - 1) =~= entries.skip(i));
    } else {
        assert(entries.skip(0) =~= entries);
    }
}

proof fn lemma_find_namespace_skip(entries: Seq<NsEntryModel>, key: Seq<char>, i: int)
    requires
        0 <= i <= entries.len(),
        forall|j: int| 0 <= j < i ==> (#[trigger] entries[j]).alias != key,
    ensures
        spec_find_namespace(entries, key) == spec_find_namespace(entries.skip(i), key),
    decreases i,
{
    if i > 0 {
        assert(entries.len() > 0);
        assert(entries[0].alias != key);
        lemma_find_namespace_skip(entries.drop_first(), key, i - 1);
        assert(entries.drop_first().skip(i - 1) =~= entries.skip(i));
    } else {
        assert(entries.skip(0) =~= entries);
    }
}

impl ImportsMap {
    /// An empty map.
    pub fn new() -> (r: ImportsMap)
        ensures
            r.identifiers.deep_view() == Seq::<IdentEntryModel>::empty(),
            r.namespaces.deep_view() == Seq::<NsEntryModel>::empty(),
    {
        let r = ImportsMap { identifiers: Vec::new(), namespaces: Vec::new() };
        proof {
            assert(r.identifiers.deep_view() =~= Seq::<IdentEntryModel>::empty());
            assert(r.namespaces.deep_view() =~= Seq::<NsEntryModel>::empty());
        }
        r
    }

    /// Looks a plain identifier up, returning the exported name it stands
    /// for and its canonical source.
    pub fn find_identifier(&self, key: &Identifier) -> (r: Option<(Identifier, CanonicalSource)>)
        ensures
            match r {
                Some(p) => {
                    &&& spec_find_identifier(self.identifiers.deep_view(), key@) matches Some(e)
                    &&& p.0@ == e.original
                    &&& p.1.deep_view() == e.source
                },
                None => spec_find_identifier(self.identifiers.deep_view(), key@) is None,
            },
    {
        let mut i: usize = 0;
        while i < self.identifiers.len()
            invariant
                i <= self.identifiers.len(),
                forall|j: int|
                    0 <= j < i ==> (#[trigger] self.identifiers.deep_view()[j]).local != key@,
            decreases self.identifiers.len() - i,
        {
            let e = &self.identifiers[i];
            if str_eq(e.local.0.as_str(), key.0.as_str()) {
                proof {
                    lemma_find_identifier_skip(self.identifiers.deep_view(), key@, i as int);
                    assert(self.identifiers.deep_view().skip(i as int)[0]
                        == self.identifiers.deep_view()[i as int]);
                }
                return Some((e.original.clone_id(), e.source.clone_source()));
            }
            i += 1;
        }
        proof {
            lemma_find_identifier_skip(
                self.identifiers.deep_view(),
                key@,
                self.identifiers.len() as int,
            );
            assert(self.identifiers.deep_view().skip(self.identifiers.len() as int) =~= Seq::<
                IdentEntryModel,
            >::empty());
        }
        None
    }

    /// Looks a namespace alias up, returning its canonical source.
    pub fn find_namespace(&self, key: &Identifier) -> (r: Option<CanonicalSource>)
        ensures
            match r {
                Some(src) => {
                    &&& spec_find_namespace(self.namespaces.deep_view(), key@) matches Some(e)
                    &&& src.deep_view() == e.source
                },
                None => spec_find_namespace(self.namespaces.deep_view(), key@) is None,
            },
    {
        let mut i: usize = 0;
        while i < self.namespaces.len()
            invariant
                i <= self.namespaces.len(),
                forall|j: int|
                    0 <= j < i ==> (#[trigger] self.namespaces.deep_view()[j]).alias != key@,
            decreases self.namespaces.len() - i,
        {
            let e = &self.namespaces[i];
            if str_eq(e.alias.0.as_str(), key.0.as_str()) {
                proof {
                    lemma_find_namespace_skip(self.namespaces.deep_view(), key@, i as int);
                    assert(self.namespaces.deep_view().skip(i as int)[0]
                        == self.namespaces.deep_view()[i as int]);
                }
                return Some(e.source.clone_source());
            }
            i += 1;
        }
        proof {
            lemma_find_namespace_skip(
                self.namespaces.deep_view(),
                key@,
                self.namespaces.len() as int,
            );
            assert(self.namespaces.deep_view().skip(self.namespaces.len() as int) =~= Seq::<
                NsEntryModel,
            >::empty());
        }
        None
    }
}

/// One import statement of the analyzed file, as the patterns capture it.
#[derive(Debug)]
pub enum ImportStmt {
    /// `import { name } from "specifier"` — the local binding is the
    /// exported name itself.
    Plain { name: String, specifier: String },
    /// `import { name as alias } from "specifier"`.
    Aliased { name: String, alias: String, specifier: String },
    /// `import name from "specifier"` — a default import binds like a plain
    /// one.
    DefaultImport { name: String, specifier: String },
    /// `import * as alias from "specifier"` — stored only in the namespace
    /// table; members are resolved at the point of use.
    Namespace { alias: String, specifier: String },
}

/// The mathematical value of an `ImportStmt`.
pub enum StmtModel {
    Plain { name: Seq<char>, specifier: Seq<char> },
    Aliased { name: Seq<char>, alias: Seq<char>, specifier: Seq<char> },
    DefaultImport { name: Seq<char>, specifier: Seq<char> },
    Namespace { alias: Seq<char>, specifier: Seq<char> },
}

impl DeepView for ImportStmt {
    type V = StmtModel;

    open spec fn deep_view(&self) -> StmtModel {
        match self {
            ImportStmt::Plain { name, specifier } => StmtModel::Plain {
                name: name@,
                specifier: specifier@,
            },
            ImportStmt::Aliased { name, alias, specifier } => StmtModel::Aliased {
                name: name@,
                alias: alias@,
                specifier: specifier@,
            },
            ImportStmt::DefaultImport { name, specifier } => StmtModel::DefaultImport {
                name: name@,
                specifier: specifier@,
            },
            ImportStmt::Namespace { alias, specifier } => StmtModel::Namespace {
                alias: alias@,
                specifier: specifier@,
            },
        }
    }
}

/// The identifier-table entries that a list of import statements produces,
/// in order: plain and default imports bind the exported name to itself,
/// aliased ones bind the alias, and each entry carries the classification of
/// its specifier.
pub open spec fn spec_ident_entries(dir: Option<Seq<char>>, stmts: Seq<StmtModel>) -> Seq<
    IdentEntryModel,
>
    decreases stmts.len(),
{
    if stmts.len() == 0 {
        Seq::empty()
    } else {
        let front = spec_ident_entries(dir, stmts.drop_last());
        match stmts.last() {
            StmtModel::Plain { name, specifier } => front.push(
                IdentEntryModel {
                    local: name,
                    original: name,
                    source: spec_classify(dir, specifier),
                },
            ),
            StmtModel::Aliased { name, alias, specifier } => front.push(
                IdentEntryModel {
                    local: alias,
                    original: name,
                    source: spec_classify(dir, specifier),
                },
            ),
            StmtModel::DefaultImport { name, specifier } => front.push(
                IdentEntryModel {
                    local: name,
                    original: name,
                    source: spec_classify(dir, specifier),
                },
            ),
            StmtModel::Namespace { .. } => front,
        }
    }
}

/// The namespace-table entries that a list of import statements produces.
pub open spec fn spec_ns_entries(dir: Option<Seq<char>>, stmts: Seq<StmtModel>) -> Seq<
    NsEntryModel,
>
    decreases stmts.len(),
{
    if stmts.len() == 0 {
        Seq::empty()
    } else {
        let front = spec_ns_entries(dir, stmts.drop_last());
        match stmts.last() {
            StmtModel::Namespace { alias, specifier } => front.push(
                NsEntryModel { alias, source: spec_classify(dir, specifier) },
            ),
            _ => front,
        }
    }
}

/// Builds the per-file import map from the captured import statements,
/// classifying every specifier against the importing file's directory.
pub fn build_import_map(dir: Option<&str>, stmts: &Vec<ImportStmt>) -> (r: ImportsMap)
    ensures
        r.identifiers.deep_view() == spec_ident_entries(spec_dir_view(dir), stmts.deep_view()),
        r.namespaces.deep_view() == spec_ns_entries(spec_dir_view(dir), stmts.deep_view()),
{
    let ghost gdir = spec_dir_view(dir);
    let mut map = ImportsMap::new();
    let mut i: usize = 0;
    proof {
        assert(stmts.deep_view().take(0) =~= Seq::<StmtModel>::empty());
    }
    while i < stmts.len()
        invariant
            i <= stmts.len(),
            gdir == spec_dir_view(dir),
            map.identifiers.deep_view() == spec_ident_entries(gdir, stmts.deep_view().take(
                i as int,
            )),
            map.namespaces.deep_view() == spec_ns_entries(gdir, stmts.deep_view().take(i as int)),
        decreases stmts.len() - i,
    {
        proof {
            assert(stmts.deep_view().take(i as int + 1).drop_last() =~= stmts.deep_view().take(
                i as int,
            ));
            assert(stmts.deep_view().take(i as int + 1).last() == stmts.deep_view()[i as int]);
        }
        let ghost old_idents = map.identifiers.deep_view();
        let ghost old_ns = map.namespaces.deep_view();
        match &stmts[i] {
            ImportStmt::Plain { name, specifier } => {
                let source = classify_specifier(dir, specifier.as_str());
                map.identifiers.push(
                    IdentEntry {
                        local: Identifier(name.clone()),
                        original: Identifier(name.clone()),
                        source,
                    },
                );
                proof {
                    assert(stmts.deep_view()[i as int] == (StmtModel::Plain {
                        name: name@,
                        specifier: specifier@,
                    }));
                    assert(map.identifiers.deep_view() =~= old_idents.push(
                        IdentEntryModel {
                            local: name@,
                            original: name@,
                            source: spec_classify(gdir, specifier@),
                        },
                    ));
                    assert(map.namespaces.deep_view() == old_ns);
                }
            },
            ImportStmt::Aliased { name, alias, specifier } => {
                let source = classify_specifier(dir, specifier.as_str());
                map.identifiers.push(
                    IdentEntry {
                        local: Identifier(alias.clone()),
                        original: Identifier(name.clone()),
                        source,
                    },
                );
                proof {
                    assert(stmts.deep_view()[i as int] == (StmtModel::Aliased {
                        name: name@,
                        alias: alias@,
                        specifier: specifier@,
                    }));
                    assert(map.identifiers.deep_view() =~= old_idents.push(
                        IdentEntryModel {
                            local: alias@,
                            original: name@,
                            source: spec_classify(gdir, specifier@),
                        },
                    ));
                    assert(map.namespaces.deep_view() == old_ns);
                }
            },
            ImportStmt::DefaultImport { name, specifier } => {
                let source = classify_specifier(dir, specifier.as_str());
                map.identifiers.push(
                    IdentEntry {
                        local: Identifier(name.clone()),
                        original: Identifier(name.clone()),
                        source,
                    },
                );
                proof {
                    assert(stmts.deep_view()[i as int] == (StmtModel::DefaultImport {
                        name: name@,
                        specifier: specifier@,
                    }));
                    assert(map.identifiers.deep_view() =~= old_idents.push(
                        IdentEntryModel {
                            local: name@,
                            original: name@,
                            source: spec_classify(gdir, specifier@),
                        },
                    ));
                    assert(map.namespaces.deep_view() == old_ns);
                }
            },
            ImportStmt::Namespace { alias, specifier } => {
                let source = classify_specifier(dir, specifier.as_str());
                map.namespaces.push(NsEntry { alias: Identifier(alias.clone()), source });
                proof {
                    assert(stmts.deep_view()[i as int] == (StmtModel::Namespace {
                        alias: alias@,
                        specifier: specifier@,
                    }));
                    assert(map.namespaces.deep_view() =~= old_ns.push(
                        NsEntryModel { alias: alias@, source: spec_classify(gdir, specifier@) },
                    ));
                    assert(map.identifiers.deep_view() == old_idents);
                }
            },
        }
        i += 1;
    }
    proof {
        assert(stmts.deep_view().take(stmts.len() as int) =~= stmts.deep_view());
    }
    map
}

/// What a wrapper call wraps: a bare identifier, a member access through a
/// namespace alias, a named function expression, or something anonymous.
#[derive(Debug)]
pub enum WrappedArg {
    Ident(String),
    Member { namespace: String, member: String },
    NamedFn(String),
    Anonymous,
}

/// The mathematical value of a `WrappedArg`.
pub enum ArgModel {
    Ident { name: Seq<char> },
    Member { namespace: Seq<char>, member: Seq<char> },
    NamedFn { name: Seq<char> },
    Anonymous,
}

impl DeepView for WrappedArg {
    type V = ArgModel;

    open spec fn deep_view(&self) -> ArgModel {
        match self {
            WrappedArg::Ident(name) => ArgModel::Ident { name: name@ },
            WrappedArg::Member { namespace, member } => ArgModel::Member {
                namespace: namespace@,
                member: member@,
            },
            WrappedArg::NamedFn(name) => ArgModel::NamedFn { name: name@ },
            WrappedArg::Anonymous => ArgModel::Anonymous,
        }
    }
}

/// A call of some function on a wrapped value, with the optional explicit
/// name overrides of the two-argument form.
#[derive(Debug)]
pub struct WrapperCall {
    /// The identifier the call invokes.
    pub callee: String,
    /// An explicit `functionName` override, when the first argument is an
    /// options structure carrying one.
    pub fn_override: Option<String>,
    /// An explicit `moduleName` override.
    pub module_override: Option<String>,
    /// The wrapped value.
    pub arg: WrappedArg,
}

/// The mathematical value of a `WrapperCall`.
pub struct CallModel {
    pub callee: Seq<char>,
    pub fn_override: Option<Seq<char>>,
    pub module_override: Option<Seq<char>>,
    pub arg: ArgModel,
}

impl DeepView for WrapperCall {
    type V = CallModel;

    open spec fn deep_view(&self) -> CallModel {
        CallModel {
            callee: self.callee@,
            fn_override: match &self.fn_override {
                Some(s) => Some(s@),
                None => None,
            },
            module_override: match &self.module_override {
                Some(s) => Some(s@),
                None => None,
            },
            arg: self.arg.deep_view(),
        }
    }
}

/// Whether the invoked identifier resolves, through the import map, to the
/// well-known instrumentation package's exported marker.
pub open spec fn spec_is_marker(entries: Seq<IdentEntryModel>, callee: Seq<char>) -> bool {
    match spec_find_identifier(entries, callee) {
        Some(e) => e.original == "autometrics"@ && match e.source {
            SourceModel::External { path } => path == "autometrics"@ || path
                == "@autometrics/autometrics"@,
            _ => false,
        },
        None => false,
    }
}

/// The scope and name the wrapped value itself traces to, before any
/// override: an imported identifier gives its source's rendering and its
/// original exported name; a member access gives its namespace's rendering
/// and the member; anything else that has a name stays in the current
/// module; an anonymous value has no name of its own.
pub open spec fn spec_trace_arg(
    idents: Seq<IdentEntryModel>,
    namespaces: Seq<NsEntryModel>,
    arg: ArgModel,
    prefix: Seq<char>,
) -> Option<(Seq<char>, Seq<char>)> {
    match arg {
        ArgModel::Ident { name } => match spec_find_identifier(idents, name) {
            Some(e) => Some((spec_render(e.source), e.original)),
            None => Some((prefix, name)),
        },
        ArgModel::Member { namespace, member } => match spec_find_namespace(
            namespaces,
            namespace,
        ) {
            Some(e) => Some((spec_render(e.source), member)),
            None => Some((prefix, member)),
        },
        ArgModel::NamedFn { name } => Some((prefix, name)),
        ArgModel::Anonymous => None,
    }
}

/// The label a wrapper call produces: nothing when the callee is not the
/// marker or no function name can be determined; otherwise the traced scope
/// and name, each replaced by its explicit override when one is supplied.
pub open spec fn spec_resolve_wrapped(
    idents: Seq<IdentEntryModel>,
    namespaces: Seq<NsEntryModel>,
    call: CallModel,
    prefix: Seq<char>,
) -> Option<LabelModel> {
    if !spec_is_marker(idents, call.callee) {
        None
    } else {
        let traced = spec_trace_arg(idents, namespaces, call.arg, prefix);
        let function = match call.fn_override {
            Some(f) => Some(f),
            None => match traced {
                Some(t) => Some(t.1),
                None => None,
            },
        };
        let module = match call.module_override {
            Some(m) => m,
            None => match traced {
                Some(t) => t.0,
                None => prefix,
            },
        };
        match function {
            Some(f) => Some(LabelModel { module, function: f }),
            None => None,
        }
    }
}

/// Wrapper override: a call that supplies explicit `functionName` and
/// `moduleName` values produces a label holding exactly those values,
/// whatever the wrapped value is.
pub proof fn lemma_wrapper_override(
    idents: Seq<IdentEntryModel>,
    namespaces: Seq<NsEntryModel>,
    call: CallModel,
    prefix: Seq<char>,
    f: Seq<char>,
    m: Seq<char>,
)
    requires
        spec_is_marker(idents, call.callee),
        call.fn_override == Some(f),
        call.module_override == Some(m),
    ensures
        spec_resolve_wrapped(idents, namespaces, call, prefix) == Some(
            LabelModel { module: m, function: f },
        ),
{
}

/// Import classification, stated over the resolver: an external package
/// keeps its specifier under the external tag; a relative specifier resolves
/// through the importing file's directory; and a namespace import stores the
/// same classification that a plain import of the same specifier gets, no
/// matter which member is later accessed through it.
pub proof fn lemma_import_classification(
    dir: Option<Seq<char>>,
    ext_specifier: Seq<char>,
    rel_specifier: Seq<char>,
)
    requires
        !spec_is_relative(ext_specifier),
        spec_is_relative(rel_specifier),
    ensures
        spec_classify(dir, ext_specifier) == (SourceModel::External { path: ext_specifier }),
        spec_classify(dir, rel_specifier) matches SourceModel::Relative { .. }
            || spec_classify(dir, rel_specifier) matches SourceModel::Sibling { .. },
        forall|name: Seq<char>, alias: Seq<char>, sp: Seq<char>|
            #![trigger spec_ns_entries(dir, seq![StmtModel::Namespace { alias, specifier: sp }]),
                spec_ident_entries(dir, seq![StmtModel::Plain { name, specifier: sp }])]
            spec_classify(dir, sp) == spec_ns_entries(
                dir,
                seq![StmtModel::Namespace { alias, specifier: sp }],
            )[0].source && spec_classify(dir, sp) == spec_ident_entries(
                dir,
                seq![StmtModel::Plain { name, specifier: sp }],
            )[0].source,
{
    assert forall|name: Seq<char>, alias: Seq<char>, sp: Seq<char>|
        #![trigger spec_ns_entries(dir, seq![StmtModel::Namespace { alias, specifier: sp }]),
            spec_ident_entries(dir, seq![StmtModel::Plain { name, specifier: sp }])]
        spec_classify(dir, sp) == spec_ns_entries(
            dir,
            seq![StmtModel::Namespace { alias, specifier: sp }],
        )[0].source && spec_classify(dir, sp) == spec_ident_entries(
            dir,
            seq![StmtModel::Plain { name, specifier: sp }],
        )[0].source by {
        reveal_with_fuel(spec_ns_entries, 3);
        reveal_with_fuel(spec_ident_entries, 3);
        let ns_stmts = seq![StmtModel::Namespace { alias, specifier: sp }];
        let id_stmts = seq![StmtModel::Plain { name, specifier: sp }];
        assert(ns_stmts.drop_last() =~= Seq::<StmtModel>::empty());
        assert(id_stmts.drop_last() =~= Seq::<StmtModel>::empty());
        assert(spec_ns_entries(dir, ns_stmts) =~= Seq::<NsEntryModel>::empty().push(
            NsEntryModel { alias, source: spec_classify(dir, sp) },
        ));
        assert(spec_ident_entries(dir, id_stmts) =~= Seq::<IdentEntryModel>::empty().push(
            IdentEntryModel { local: name, original: name, source: spec_classify(dir, sp) },
        ));
    }
}

/// The labels of a file's wrapper calls, in call order: the resolution of
/// every call that invokes the marker and determines a function name.
pub open spec fn spec_wrapped_labels(
    idents: Seq<IdentEntryModel>,
    namespaces: Seq<NsEntryModel>,
    calls: Seq<CallModel>,
    prefix: Seq<char>,
) -> Seq<LabelModel>
    decreases calls.len(),
{
    if calls.len() == 0 {
        Seq::empty()
    } else {
        spec_wrapped_labels(idents, namespaces, calls.drop_last(), prefix) + match
            spec_resolve_wrapped(idents, namespaces, calls.last(), prefix) {
            Some(l) => seq![l],
            None => Seq::empty(),
        }
    }
}

/// Resolves every wrapper call of one file against the import map: exactly
/// `spec_wrapped_labels` of the calls.
pub fn resolve_all_wrapped(map: &ImportsMap, calls: &Vec<WrapperCall>, prefix: &str) -> (r: Vec<
    ExpectedAmLabel,
>)
    ensures
        r.deep_view() == spec_wrapped_labels(
            map.identifiers.deep_view(),
            map.namespaces.deep_view(),
            calls.deep_view(),
            prefix@,
        ),
{
    let ghost idents = map.identifiers.deep_view();
    let ghost namespaces = map.namespaces.deep_view();
    let mut out: Vec<ExpectedAmLabel> = Vec::new();
    let mut i: usize = 0;
    proof {
        assert(calls.deep_view().take(0) =~= Seq::<CallModel>::empty());
        assert(out.deep_view() =~= spec_wrapped_labels(
            idents,
            namespaces,
            calls.deep_view().take(0),
            prefix@,
        ));
    }
    while i < calls.len()
        invariant
            i <= calls.len(),
            idents == map.identifiers.deep_view(),
            namespaces == map.namespaces.deep_view(),
            out.deep_view() == spec_wrapped_labels(
                idents,
                namespaces,
                calls.deep_view().take(i as int),
                prefix@,
            ),
        decreases calls.len() - i,
    {
        proof {
            assert(calls.deep_view().take(i as int + 1).drop_last() =~= calls.deep_view().take(
                i as int,
            ));
            assert(calls.deep_view().take(i as int + 1).last() == calls.deep_view()[i as int]);
        }
        match resolve_wrapped(map, &calls[i], prefix) {
            Some(label) => {
                let ghost old_out = out.deep_view();
                out.push(label);
                proof {
                    assert(out.deep_view() =~= old_out.push(out.deep_view().last()));
                    assert(out.deep_view() =~= spec_wrapped_labels(
                        idents,
                        namespaces,
                        calls.deep_view().take(i as int + 1),
                        prefix@,
                    ));
                }
            },
            None => {
                proof {
                    assert(out.deep_view() =~= spec_wrapped_labels(
                        idents,
                        namespaces,
                        calls.deep_view().take(i as int + 1),
                        prefix@,
                    ));
                }
            },
        }
        i += 1;
    }
    proof {
        assert(calls.deep_view().take(calls.len() as int) =~= calls.deep_view());
    }
    out
}

/// Turns a wrapper call into a label by tracing the wrapped value through
/// the import map, with explicit overrides winning: see
/// `spec_resolve_wrapped`.
pub fn resolve_wrapped(map: &ImportsMap, call: &WrapperCall, prefix: &str) -> (r: Option<
    ExpectedAmLabel,
>)
    ensures
        match r {
            Some(l) => spec_resolve_wrapped(
                map.identifiers.deep_view(),
                map.namespaces.deep_view(),
                call.deep_view(),
                prefix@,
            ) == Some(l@),
            None => spec_resolve_wrapped(
                map.identifiers.deep_view(),
                map.namespaces.deep_view(),
                call.deep_view(),
                prefix@,
            ) is None,
        },
{
    proof {
        reveal_strlit("autometrics");
        reveal_strlit("@autometrics/autometrics");
    }
    let marker = match map.find_identifier(&Identifier(call.callee.clone())) {
        Some((orig, source)) => str_eq(orig.0.as_str(), "autometrics") && match &source {
            CanonicalSource::External(p) => str_eq(p.as_str(), "autometrics") || str_eq(
                p.as_str(),
                "@autometrics/autometrics",
            ),
            _ => false,
        },
        None => false,
    };
    if !marker {
        return None;
    }
    let traced: Option<(String, String)> = match &call.arg {
        WrappedArg::Ident(name) => match map.find_identifier(&Identifier(name.clone())) {
            Some((orig, source)) => Some((source.render(), orig.0)),
            None => Some((prefix.to_owned(), name.clone())),
        },
        WrappedArg::Member { namespace, member } => match map.find_namespace(
            &Identifier(namespace.clone()),
        ) {
            Some(source) => Some((source.render(), member.clone())),
            None => Some((prefix.to_owned(), member.clone())),
        },
        WrappedArg::NamedFn(name) => Some((prefix.to_owned(), name.clone())),
        WrappedArg::Anonymous => None,
    };
    let function: Option<String> = match &call.fn_override {
        Some(f) => Some(f.clone()),
        None => match &traced {
            Some(t) => Some(t.1.clone()),
            None => None,
        },
    };
    let module: String = match &call.module_override {
        Some(m) => m.clone(),
        None => match traced {
            Some(t) => t.0,
            None => prefix.to_owned(),
        },
    };
    match function {
        Some(f) => Some(ExpectedAmLabel { module, function: f }),
        None => None,
    }
}

} // verus!
