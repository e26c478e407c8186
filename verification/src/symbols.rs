//! The symbols of a target's loaded binary images, and how a name is
//! resolved to an address: images are scanned in load order, the symbols of
//! each image in table order, and the first symbol that matches wins.

use crate::text::{chars_of, contains, contains_text, same_text};
use vstd::prelude::*;

verus! {

/// What a symbol names.
#[derive(Clone, Copy, Debug, PartialEq, Eq, Structural)]
pub enum SymbolKind {
    /// Executable code: a function.
    Code,
    /// A variable or constant.
    Data,
    /// Anything else that a symbol table lists.
    Other,
}

/// Why a name could not be resolved.
#[derive(Clone, Copy, Debug, PartialEq, Eq, Structural)]
pub enum ResolveError {
    /// No symbol of the scanned images matches.
    SymbolNotFound,
    /// The first matching symbol has no address in the running target.
    NoStartAddress,
}

/// One entry of an image's symbol table. `start_address` is the address of
/// the symbol in the running target, where it has one.
#[derive(Clone, Debug, PartialEq, Eq)]
pub struct Symbol {
    pub name: Vec<char>,
    pub kind: SymbolKind,
    pub start_address: Option<u64>,
}

/// A symbol as a mathematical value.
pub struct SymbolView {
    pub name: Seq<char>,
    pub kind: SymbolKind,
    pub start_address: Option<u64>,
}

impl View for Symbol {
    type V = SymbolView;

    open spec fn view(&self) -> SymbolView {
        SymbolView { name: self.name@, kind: self.kind, start_address: self.start_address }
    }
}

impl Symbol {
    /// A symbol called `name`.
    pub fn new(name: &str, kind: SymbolKind, start_address: Option<u64>) -> (symbol: Symbol)
        ensures
            symbol@ == (SymbolView { name: name@, kind, start_address }),
    {
        Symbol { name: chars_of(name), kind, start_address }
    }

    /// A copy of this symbol.
    pub fn duplicate(&self) -> (copy: Symbol)
        ensures
            copy@ == self@,
    {
        let mut name: Vec<char> = Vec::new();
        let mut i: usize = 0;
        while i < self.name.len()
            invariant
                i <= self.name.len(),
                name@ == self.name@.take(i as int),
            decreases self.name.len() - i,
        {
            name.push(self.name[i]);
            i += 1;
            assert(self.name@.take(i as int) =~= self.name@.take(i - 1).push(self.name@[i - 1]));
        }
        assert(self.name@.take(i as int) =~= self.name@);
        Symbol { name, kind: self.kind, start_address: self.start_address }
    }
}

/// The symbol table of one image, in table order.
#[derive(Clone, Debug, PartialEq, Eq)]
pub struct ModuleSymbols {
    pub symbols: Vec<Symbol>,
}

impl View for ModuleSymbols {
    type V = Seq<SymbolView>;

    open spec fn view(&self) -> Seq<SymbolView> {
        Seq::new(self.symbols@.len(), |i: int| self.symbols@[i]@)
    }
}

impl ModuleSymbols {
    /// The number of symbols in the table.
    pub fn len(&self) -> (count: usize)
        ensures
            count == self@.len(),
    {
        self.symbols.len()
    }

    /// The symbol at `index`, or `None` past the end of the table.
    pub fn get(&self, index: usize) -> (symbol: Option<&Symbol>)
        ensures
            index < self@.len() ==> (symbol matches Some(s) && s@ == self@[index as int]),
            index >= self@.len() ==> symbol is None,
    {
        if index < self.len() {
            Some(&self.symbols[index])
        } else {
            None
        }
    }

    /// An iteration over the table from its first symbol.
    pub fn into_iter(self) -> (iter: ModuleSymbolsIter)
        ensures
            iter.module@ == self@,
            iter.index == 0,
    {
        ModuleSymbolsIter { module: self, index: 0 }
    }
}

/// A position in a symbol table.
#[derive(Clone, Debug, PartialEq, Eq)]
pub struct ModuleSymbolsIter {
    pub module: ModuleSymbols,
    pub index: usize,
}

impl ModuleSymbolsIter {
    /// The symbol at the current position, after which the position moves on
    /// by one; `None`, and no move, at the end of the table.
    pub fn next(&mut self) -> (symbol: Option<Symbol>)
        ensures
            final(self).module == old(self).module,
            old(self).index < old(self).module@.len() ==> final(self).index == old(self).index
                + 1,
            old(self).index < old(self).module@.len() ==> (symbol matches Some(s) && s@ == old(
                self,
            ).module@[old(self).index as int]),
            old(self).index >= old(self).module@.len() ==> final(self).index == old(self).index
                && symbol is None,
    {
        if self.index < self.module.len() {
            self.index += 1;
            match self.module.get(self.index - 1) {
                Some(symbol) => Some(symbol.duplicate()),
                None => None,
            }
        } else {
            None
        }
    }
}

/// One loaded binary image: the name that identifies it and its symbols.
#[derive(Clone, Debug, PartialEq, Eq)]
pub struct Module {
    pub name: Vec<char>,
    pub symbols: ModuleSymbols,
}

/// An image as a mathematical value.
pub struct ModuleView {
    pub name: Seq<char>,
    pub symbols: Seq<SymbolView>,
}

impl View for Module {
    type V = ModuleView;

    open spec fn view(&self) -> ModuleView {
        ModuleView { name: self.name@, symbols: self.symbols@ }
    }
}

impl Module {
    /// An image called `name` with the given symbol table.
    pub fn new(name: &str, symbols: Vec<Symbol>) -> (module: Module)
        ensures
            module.name@ == name@,
            module.symbols.symbols == symbols,
    {
        Module { name: chars_of(name), symbols: ModuleSymbols { symbols } }
    }
}

/// The images loaded into a target, in load order.
#[derive(Clone, Debug, PartialEq, Eq)]
pub struct TargetImage {
    pub modules: Vec<Module>,
}

impl View for TargetImage {
    type V = Seq<ModuleView>;

    open spec fn view(&self) -> Seq<ModuleView> {
        Seq::new(self.modules@.len(), |i: int| self.modules@[i]@)
    }
}

/// How a symbol's name is compared with the name asked for.
#[derive(Clone, Copy, Debug, PartialEq, Eq, Structural)]
pub enum NameRule {
    /// The symbol's name contains the name asked for.
    Contains,
    /// The symbol's name is the name asked for.
    Exact,
}

/// What a resolution looks for.
pub struct Query {
    /// The name asked for.
    pub name: Seq<char>,
    /// How symbol names are compared with it.
    pub rule: NameRule,
    /// The kind a symbol must have, if any.
    pub kind: Option<SymbolKind>,
    /// Text that the name of a symbol's image must contain, if any.
    pub module_filter: Option<Seq<char>>,
}

/// The image `module` is one that `query` scans.
pub open spec fn module_selected(module: ModuleView, query: Query) -> bool {
    match query.module_filter {
        Some(filter) => contains_text(module.name, filter),
        None => true,
    }
}

/// The symbol meets `query`, whatever image it belongs to.
pub open spec fn symbol_selected(symbol: SymbolView, query: Query) -> bool {
    &&& match query.kind {
        Some(kind) => symbol.kind == kind,
        None => true,
    }
    &&& match query.rule {
        NameRule::Contains => contains_text(symbol.name, query.name),
        NameRule::Exact => symbol.name == query.name,
    }
}

/// Symbol `s` of image `m` exists and meets `query`.
pub open spec fn is_match(image: Seq<ModuleView>, query: Query, m: int, s: int) -> bool {
    &&& 0 <= m < image.len()
    &&& 0 <= s < image[m].symbols.len()
    &&& module_selected(image[m], query)
    &&& symbol_selected(image[m].symbols[s], query)
}

/// Position `(m1, s1)` is scanned before `(m2, s2)`.
pub open spec fn scanned_before(m1: int, s1: int, m2: int, s2: int) -> bool {
    m1 < m2 || (m1 == m2 && s1 < s2)
}

/// Symbol `s` of image `m` meets `query` and nothing scanned before it does.
pub open spec fn is_first_match(image: Seq<ModuleView>, query: Query, m: int, s: int) -> bool {
    &&& is_match(image, query, m, s)
    &&& forall|m2: int, s2: int| #[trigger]
        is_match(image, query, m2, s2) ==> !scanned_before(m2, s2, m, s)
}

/// The position of the first symbol that meets `query`, if any does.
pub open spec fn first_match(image: Seq<ModuleView>, query: Query) -> Option<(int, int)> {
    if exists|m: int, s: int| is_first_match(image, query, m, s) {
        Some(choose|m: int, s: int| is_first_match(image, query, m, s))
    } else {
        None
    }
}

/// What resolving `query` against `image` gives: the address of the first
/// symbol that matches.
pub open spec fn resolution(image: Seq<ModuleView>, query: Query) -> Result<u64, ResolveError> {
    match first_match(image, query) {
        None => Err(ResolveError::SymbolNotFound),
        Some((m, s)) => match image[m].symbols[s].start_address {
            Some(address) => Ok(address),
            None => Err(ResolveError::NoStartAddress),
        },
    }
}

/// The query that [`resolve_function`] makes.
pub open spec fn function_query(name: Seq<char>, module_filter: Option<Seq<char>>) -> Query {
    Query { name, rule: NameRule::Contains, kind: None, module_filter }
}

/// The query that [`resolve_data`] makes.
pub open spec fn data_query(name: Seq<char>) -> Query {
    Query { name, rule: NameRule::Contains, kind: Some(SymbolKind::Data), module_filter: None }
}

/// The query for a symbol of the given kind with exactly the given name.
pub open spec fn exact_query(name: Seq<char>, kind: SymbolKind) -> Query {
    Query { name, rule: NameRule::Exact, kind: Some(kind), module_filter: None }
}

/// At most one position is the first match.
pub proof fn lemma_first_match_unique(
    image: Seq<ModuleView>,
    query: Query,
    m1: int,
    s1: int,
    m2: int,
    s2: int,
)
    requires
        is_first_match(image, query, m1, s1),
        is_first_match(image, query, m2, s2),
    ensures
        m1 == m2,
        s1 == s2,
{
    assert(is_match(image, query, m1, s1));
    assert(is_match(image, query, m2, s2));
}

/// Where some symbol matches, some symbol is the first match.
pub proof fn lemma_first_match_exists(image: Seq<ModuleView>, query: Query, m: int, s: int)
    requires
        is_match(image, query, m, s),
    ensures
        exists|m0: int, s0: int| is_first_match(image, query, m0, s0),
    decreases m, s,
{
    if exists|m2: int, s2: int|
        is_match(image, query, m2, s2) && scanned_before(m2, s2, m, s) {
        let (m2, s2) = choose|m2: int, s2: int|
            is_match(image, query, m2, s2) && scanned_before(m2, s2, m, s);
        lemma_first_match_exists(image, query, m2, s2);
    } else {
        assert(is_first_match(image, query, m, s));
    }
}

/// Whether `module` is one that the filter lets through.
fn module_passes(module: &Module, module_filter: Option<&[char]>) -> (passes: bool)
    ensures
        passes == match module_filter {
            Some(filter) => contains_text(module@.name, filter@),
            None => true,
        },
{
    match module_filter {
        Some(filter) => contains(module.name.as_slice(), filter),
        None => true,
    }
}

/// Whether `symbol` has the kind and the name asked for.
fn symbol_passes(symbol: &Symbol, name: &[char], rule: NameRule, kind: Option<SymbolKind>) -> (passes:
    bool)
    ensures
        passes == symbol_selected(
            symbol@,
            Query { name: name@, rule, kind, module_filter: None },
        ),
{
    let kind_ok: bool = match kind {
        Some(wanted) => symbol.kind == wanted,
        None => true,
    };
    if !kind_ok {
        return false;
    }
    match rule {
        NameRule::Contains => contains(symbol.name.as_slice(), name),
        NameRule::Exact => same_text(symbol.name.as_slice(), name),
    }
}

/// The view of an optional filter.
pub open spec fn filter_view(module_filter: Option<&[char]>) -> Option<Seq<char>> {
    match module_filter {
        Some(filter) => Some(filter@),
        None => None,
    }
}

/// Scans `image` for the first symbol that meets the query and returns its
/// position: the index of its image and its index in that image's table.
pub fn find_first(
    image: &TargetImage,
    name: &[char],
    rule: NameRule,
    kind: Option<SymbolKind>,
    module_filter: Option<&[char]>,
) -> (found: Option<(usize, usize)>)
    ensures
        match found {
            Some((m, s)) => first_match(
                image@,
                Query { name: name@, rule, kind, module_filter: filter_view(module_filter) },
            ) == Some((m as int, s as int)),
            None => first_match(
                image@,
                Query { name: name@, rule, kind, module_filter: filter_view(module_filter) },
            ) is None,
        },
{
    let ghost query = Query { name: name@, rule, kind, module_filter: filter_view(module_filter) };
    let mut m: usize = 0;
    while m < image.modules.len()
        invariant
            m <= image.modules.len(),
            query == (Query { name: name@, rule, kind, module_filter: filter_view(module_filter) }),
            forall|m2: int, s2: int| 0 <= m2 < m ==> !is_match(image@, query, m2, s2),
        decreases image.modules.len() - m,
    {
        let module: &Module = &image.modules[m];
        assert(image@[m as int] == module@);
        if module_passes(module, module_filter) {
            let mut s: usize = 0;
            while s < module.symbols.symbols.len()
                invariant
                    m < image.modules.len(),
                    module == &image.modules[m as int],
                    image@[m as int] == module@,
                    module_selected(module@, query),
                    s <= module.symbols.symbols.len(),
                    query == (Query {
                        name: name@,
                        rule,
                        kind,
                        module_filter: filter_view(module_filter),
                    }),
                    forall|m2: int, s2: int| 0 <= m2 < m ==> !is_match(image@, query, m2, s2),
                    forall|s2: int| 0 <= s2 < s ==> !is_match(image@, query, m as int, s2),
                decreases module.symbols.symbols.len() - s,
            {
                let symbol: &Symbol = &module.symbols.symbols[s];
                assert(module@.symbols[s as int] == symbol@);
                if symbol_passes(symbol, name, rule, kind) {
                    proof {
                        assert(is_match(image@, query, m as int, s as int));
                        assert(is_first_match(image@, query, m as int, s as int));
                        let (m0, s0) = choose|m0: int, s0: int|
                            is_first_match(image@, query, m0, s0);
                        lemma_first_match_unique(image@, query, m0, s0, m as int, s as int);
                    }
                    return Some((m, s));
                }
                s += 1;
            }
        }
        m += 1;
    }
    assert forall|m2: int, s2: int| !is_first_match(image@, query, m2, s2) by {
        assert(!is_match(image@, query, m2, s2));
    }
    None
}

/// The address of the symbol at a position that [`find_first`] returned.
fn address_at(image: &TargetImage, position: Option<(usize, usize)>, Ghost(query): Ghost<Query>) -> (outcome:
    Result<u64, ResolveError>)
    requires
        match position {
            Some((m, s)) => first_match(image@, query) == Some((m as int, s as int)),
            None => first_match(image@, query) is None,
        },
    ensures
        outcome == resolution(image@, query),
{
    match position {
        None => Err(ResolveError::SymbolNotFound),
        Some((m, s)) => {
            proof {
                let (m0, s0) = choose|m0: int, s0: int| is_first_match(image@, query, m0, s0);
                assert(is_match(image@, query, m0, s0));
            }
            let symbol: &Symbol = &image.modules[m].symbols.symbols[s];
            assert(image@[m as int].symbols[s as int] == symbol@);
            match symbol.start_address {
                Some(address) => Ok(address),
                None => Err(ResolveError::NoStartAddress),
            }
        },
    }
}

/// The address of the first symbol whose name contains `name`. With a
/// `module_filter`, only images whose name contains the filter are scanned.
pub fn resolve_function(image: &TargetImage, name: &str, module_filter: Option<&str>) -> (outcome:
    Result<u64, ResolveError>)
    ensures
        outcome == resolution(
            image@,
            function_query(
                name@,
                match module_filter {
                    Some(filter) => Some(filter@),
                    None => None,
                },
            ),
        ),
{
    let name_chars: Vec<char> = chars_of(name);
    match module_filter {
        Some(filter) => {
            let filter_chars: Vec<char> = chars_of(filter);
            let position = find_first(
                image,
                name_chars.as_slice(),
                NameRule::Contains,
                None,
                Some(filter_chars.as_slice()),
            );
            address_at(image, position, Ghost(function_query(name@, Some(filter@))))
        },
        None => {
            let position = find_first(image, name_chars.as_slice(), NameRule::Contains, None, None);
            address_at(image, position, Ghost(function_query(name@, None)))
        },
    }
}

/// The address of the first data symbol whose name contains `name`.
pub fn resolve_data(image: &TargetImage, name: &str) -> (outcome: Result<u64, ResolveError>)
    ensures
        outcome == resolution(image@, data_query(name@)),
{
    let name_chars: Vec<char> = chars_of(name);
    let position = find_first(
        image,
        name_chars.as_slice(),
        NameRule::Contains,
        Some(SymbolKind::Data),
        None,
    );
    address_at(image, position, Ghost(data_query(name@)))
}

/// The address of the first symbol of kind `kind` called exactly `name`.
pub fn resolve_exact(image: &TargetImage, name: &str, kind: SymbolKind) -> (outcome: Result<
    u64,
    ResolveError,
>)
    ensures
        outcome == resolution(image@, exact_query(name@, kind)),
{
    let name_chars: Vec<char> = chars_of(name);
    let position = find_first(image, name_chars.as_slice(), NameRule::Exact, Some(kind), None);
    address_at(image, position, Ghost(exact_query(name@, kind)))
}

/// Where a symbol matches, the resolution finds a symbol: the first match,
/// which is a match itself and is scanned no later than any other.
pub proof fn law_first_match_wins(image: Seq<ModuleView>, query: Query, m: int, s: int)
    requires
        is_match(image, query, m, s),
    ensures
        resolution(image, query) != Err::<u64, ResolveError>(ResolveError::SymbolNotFound),
        first_match(image, query) matches Some((m0, s0)) && is_first_match(image, query, m0, s0)
            && !scanned_before(m, s, m0, s0),
        first_match(image, query) matches Some((m0, s0)) && resolution(image, query) == (
        match image[m0].symbols[s0].start_address {
            Some(address) => Ok::<u64, ResolveError>(address),
            None => Err::<u64, ResolveError>(ResolveError::NoStartAddress),
        }),
{
    lemma_first_match_exists(image, query, m, s);
    let (m0, s0) = choose|m0: int, s0: int| is_first_match(image, query, m0, s0);
    assert(is_match(image, query, m, s));
}

/// The resolution fails with `SymbolNotFound` exactly when no symbol
/// matches.
pub proof fn law_not_found_means_no_match(image: Seq<ModuleView>, query: Query)
    ensures
        resolution(image, query) == Err::<u64, ResolveError>(ResolveError::SymbolNotFound) <==> (
        forall|m: int, s: int| !is_match(image, query, m, s)),
{
    if exists|m: int, s: int| is_match(image, query, m, s) {
        let (m, s) = choose|m: int, s: int| is_match(image, query, m, s);
        law_first_match_wins(image, query, m, s);
    } else {
        assert forall|m: int, s: int| !is_first_match(image, query, m, s) by {
            assert(!is_match(image, query, m, s));
        }
    }
}

/// With a module filter, the symbol found belongs to an image whose name
/// contains the filter: symbols of other images are passed over.
pub proof fn law_filter_excludes(image: Seq<ModuleView>, query: Query, filter: Seq<char>)
    requires
        query.module_filter == Some(filter),
    ensures
        first_match(image, query) matches Some((m, s)) ==> contains_text(image[m].name, filter),
        forall|m: int, s: int|
            0 <= m < image.len() && !contains_text(image[m].name, filter) ==> !is_match(
                image,
                query,
                m,
                s,
            ),
{
    if first_match(image, query) is Some {
        let (m, s) = choose|m: int, s: int| is_first_match(image, query, m, s);
        assert(is_match(image, query, m, s));
    }
}

} // verus!
