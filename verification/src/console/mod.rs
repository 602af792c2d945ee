use vstd::prelude::*;

pub mod logging;
pub mod text;

use crate::console::text::{
    all_digits, lemma_nat_text, nat_text, bool_text, bool_to_text, int_text, int_to_text, lemma_bool_text_roundtrip,
    lemma_int_text_roundtrip, lemma_quote_roundtrip, parse_bool_text, parse_i64_text, push_char, quote, text_eq,
    quoted_text, text_to_bool, text_to_int, unquote, unquote_ok, unquote_text,
};

verus! {

// ---------------------------------------------------------------------------
// Values of console variables.
// ---------------------------------------------------------------------------

/// The value of a console variable; `S` is the string type (`String` when
/// executing, `Seq<char>` in specifications).
pub enum VarData<S> {
    Int(i64),
    Bool(bool),
    Text(S),
}

pub type VarValue = VarData<String>;

impl View for VarData<String> {
    type V = VarData<Seq<char>>;

    open spec fn view(&self) -> VarData<Seq<char>> {
        match self {
            VarData::Int(i) => VarData::Int(*i),
            VarData::Bool(b) => VarData::Bool(*b),
            VarData::Text(s) => VarData::Text(s@),
        }
    }
}

/// The type of value a variable holds.
#[derive(Clone, Copy, Debug, PartialEq, Eq, Structural)]
pub enum VarKind {
    Int,
    Bool,
    Text,
}

pub open spec fn kind_of(d: VarData<Seq<char>>) -> VarKind {
    match d {
        VarData::Int(_) => VarKind::Int,
        VarData::Bool(_) => VarKind::Bool,
        VarData::Text(_) => VarKind::Text,
    }
}

/// How a value is written in the configuration file.
pub open spec fn value_text(d: VarData<Seq<char>>) -> Seq<char> {
    match d {
        VarData::Int(i) => int_text(i as int),
        VarData::Bool(b) => bool_text(b),
        VarData::Text(s) => quoted_text(s),
    }
}

/// How a value of the given kind is read from the configuration file;
/// `None` for a text that is not a value of that kind, which stops the reader.
pub open spec fn parse_value(kind: VarKind, s: Seq<char>) -> Option<VarData<Seq<char>>> {
    match kind {
        VarKind::Int => match parse_i64_text(s) {
            Some(i) => Some(VarData::Int(i)),
            None => None,
        },
        VarKind::Bool => match parse_bool_text(s) {
            Some(b) => Some(VarData::Bool(b)),
            None => None,
        },
        VarKind::Text => if unquote_ok(s) {
            Some(VarData::Text(unquote_text(s)))
        } else {
            None
        },
    }
}

/// A value written to the configuration file reads back as itself.
pub proof fn lemma_value_text_roundtrip(d: VarData<Seq<char>>)
    ensures
        parse_value(kind_of(d), value_text(d)) == Some(d),
{
    match d {
        VarData::Int(i) => lemma_int_text_roundtrip(i),
        VarData::Bool(b) => lemma_bool_text_roundtrip(b),
        VarData::Text(s) => lemma_quote_roundtrip(s),
    }
}

/// Writes a value as the configuration file holds it.
pub fn value_to_text(v: &VarValue) -> (s: String)
    ensures
        s@ == value_text(v@),
{
    match v {
        VarData::Int(i) => int_to_text(*i),
        VarData::Bool(b) => bool_to_text(*b),
        VarData::Text(t) => quote(t.as_str()),
    }
}

/// Reads a value of the given kind from the configuration file; `None` for a
/// text that is not a value of that kind.
pub fn text_to_value(kind: VarKind, input: &str) -> (r: Option<VarValue>)
    ensures
        match r {
            Some(v) => parse_value(kind, input@) == Some(v@),
            None => parse_value(kind, input@) is None,
        },
{
    match kind {
        VarKind::Int => match text_to_int(input) {
            Some(i) => Some(VarData::Int(i)),
            None => None,
        },
        VarKind::Bool => match text_to_bool(input) {
            Some(b) => Some(VarData::Bool(b)),
            None => None,
        },
        VarKind::Text => {
            let n = input.unicode_len();
            if n >= 2 && (input.get_char(0) as u32) < 128 && (input.get_char(n - 1) as u32) < 128 {
                Some(VarData::Text(unquote(input)))
            } else {
                None
            }
        },
    }
}

/// A Rust type that a console variable can have.
pub trait VarType: Sized + View {
    spec fn spec_kind() -> VarKind;

    /// The variable value that a value of this type stands for.
    spec fn as_data(v: Self::V) -> VarData<Seq<char>>;

    fn kind() -> (k: VarKind)
        ensures
            k == Self::spec_kind(),
    ;

    fn to_data(&self) -> (d: VarValue)
        ensures
            d@ == Self::as_data(self@),
            kind_of(d@) == Self::spec_kind(),
    ;

    fn from_data(d: &VarValue) -> (r: Option<Self>)
        ensures
            r is Some <==> kind_of(d@) == Self::spec_kind(),
            r matches Some(x) ==> Self::as_data(x@) == d@,
    ;
}

impl VarType for i64 {
    open spec fn spec_kind() -> VarKind {
        VarKind::Int
    }

    open spec fn as_data(v: i64) -> VarData<Seq<char>> {
        VarData::Int(v)
    }

    fn kind() -> (k: VarKind) {
        VarKind::Int
    }

    fn to_data(&self) -> (d: VarValue) {
        VarData::Int(*self)
    }

    fn from_data(d: &VarValue) -> (r: Option<i64>) {
        match d {
            VarData::Int(i) => Some(*i),
            _ => None,
        }
    }
}

impl VarType for bool {
    open spec fn spec_kind() -> VarKind {
        VarKind::Bool
    }

    open spec fn as_data(v: bool) -> VarData<Seq<char>> {
        VarData::Bool(v)
    }

    fn kind() -> (k: VarKind) {
        VarKind::Bool
    }

    fn to_data(&self) -> (d: VarValue) {
        VarData::Bool(*self)
    }

    fn from_data(d: &VarValue) -> (r: Option<bool>) {
        match d {
            VarData::Bool(b) => Some(*b),
            _ => None,
        }
    }
}

impl VarType for String {
    open spec fn spec_kind() -> VarKind {
        VarKind::Text
    }

    open spec fn as_data(v: Seq<char>) -> VarData<Seq<char>> {
        VarData::Text(v)
    }

    fn kind() -> (k: VarKind) {
        VarKind::Text
    }

    fn to_data(&self) -> (d: VarValue) {
        VarData::Text(self.clone())
    }

    fn from_data(d: &VarValue) -> (r: Option<String>) {
        match d {
            VarData::Text(s) => Some(s.clone()),
            _ => None,
        }
    }
}

// ---------------------------------------------------------------------------
// Console variables.
// ---------------------------------------------------------------------------

/// A console variable: its name, what it is for, whether it may be saved to
/// the configuration file, and the value it starts with.
pub struct CVar<T> {
    pub name: &'static str,
    pub description: &'static str,
    pub mutable: bool,
    pub serializable: bool,
    pub default: T,
}

/// The textual side of a console variable: writing and reading its values.
pub trait Var {
    spec fn spec_kind(&self) -> VarKind;

    spec fn spec_description(&self) -> Seq<char>;

    spec fn spec_serializable(&self) -> bool;

    fn serialize(&self, val: &VarValue) -> (s: String)
        requires
            kind_of(val@) == self.spec_kind(),
        ensures
            s@ == value_text(val@),
    ;

    fn deserialize(&self, input: &str) -> (v: VarValue)
        requires
            parse_value(self.spec_kind(), input@) is Some,
        ensures
            parse_value(self.spec_kind(), input@) == Some(v@),
    ;

    fn description(&self) -> (d: &'static str)
        ensures
            d@ == self.spec_description(),
    ;

    fn can_serialize(&self) -> (b: bool)
        ensures
            b == self.spec_serializable(),
    ;
}

impl<T: VarType> Var for CVar<T> {
    open spec fn spec_kind(&self) -> VarKind {
        T::spec_kind()
    }

    open spec fn spec_description(&self) -> Seq<char> {
        self.description@
    }

    open spec fn spec_serializable(&self) -> bool {
        self.serializable
    }

    fn serialize(&self, val: &VarValue) -> (s: String) {
        value_to_text(val)
    }

    fn deserialize(&self, input: &str) -> (v: VarValue) {
        let r = text_to_value(T::kind(), input);
        match r {
            Some(v) => v,
            None => {
                proof {
                    assert(false);
                }
                VarData::Bool(false)
            },
        }
    }

    fn description(&self) -> (d: &'static str) {
        self.description
    }

    fn can_serialize(&self) -> (b: bool) {
        self.serializable
    }
}


// ---------------------------------------------------------------------------
// Searching in text.
// ---------------------------------------------------------------------------

/// `p` is the position of the first `c` in `s`.
pub open spec fn is_first_index(s: Seq<char>, c: char, p: int) -> bool {
    &&& 0 <= p < s.len()
    &&& s[p] == c
    &&& forall|k: int| 0 <= k < p ==> s[k] != c
}

pub open spec fn has_char(s: Seq<char>, c: char) -> bool {
    exists|k: int| 0 <= k < s.len() && s[k] == c
}

pub open spec fn first_index(s: Seq<char>, c: char) -> int {
    choose|p: int| is_first_index(s, c, p)
}

proof fn lemma_first_index(s: Seq<char>, c: char, p: int)
    requires
        is_first_index(s, c, p),
    ensures
        first_index(s, c) == p,
        has_char(s, c),
{
    let q = first_index(s, c);
    assert(is_first_index(s, c, q));
    if q < p {
        assert(s[q] != c);
    }
    if p < q {
        assert(s[p] != c);
    }
}

/// The position of the first `c` in `s` at or after `from`, if any.
fn find_char_from(s: &str, c: char, from: usize) -> (r: Option<usize>)
    requires
        from <= s@.len(),
    ensures
        match r {
            Some(p) => is_first_index(s@.skip(from as int), c, p - from) && from <= p,
            None => !has_char(s@.skip(from as int), c),
        },
{
    let n = s.unicode_len();
    let mut k = from;
    while k < n
        invariant
            n == s@.len(),
            from <= k <= n,
            forall|j: int| from <= j < k ==> s@[j] != c,
        decreases n - k,
    {
        if s.get_char(k) == c {
            return Some(k);
        }
        k = k + 1;
    }
    None
}

// ---------------------------------------------------------------------------
// The registry of console variables.
// ---------------------------------------------------------------------------

/// One registered variable and its current value; `N` is the type of its
/// fixed texts and `S` the string type of its value.
pub struct VarEntry<N, S> {
    pub name: N,
    pub kind: VarKind,
    pub description: N,
    pub serializable: bool,
    pub value: VarData<S>,
}

pub type EntryModel = VarEntry<Seq<char>, Seq<char>>;

impl View for VarEntry<&'static str, String> {
    type V = EntryModel;

    open spec fn view(&self) -> EntryModel {
        VarEntry {
            name: self.name@,
            kind: self.kind,
            description: self.description@,
            serializable: self.serializable,
            value: self.value@,
        }
    }
}

pub open spec fn has_name(es: Seq<EntryModel>, name: Seq<char>) -> bool {
    exists|i: int| 0 <= i < es.len() && (#[trigger] es[i]).name == name
}

pub open spec fn names_distinct(es: Seq<EntryModel>) -> bool {
    forall|i: int, j: int|
        0 <= i < es.len() && 0 <= j < es.len() && i != j ==> (#[trigger] es[i]).name != (
        #[trigger] es[j]).name
}

/// The position of the variable called `name`.
pub open spec fn name_index(es: Seq<EntryModel>, name: Seq<char>) -> int {
    choose|i: int| 0 <= i < es.len() && (#[trigger] es[i]).name == name
}

/// The current value of the variable called `name`.
pub open spec fn lookup(es: Seq<EntryModel>, name: Seq<char>) -> VarData<Seq<char>> {
    es[name_index(es, name)].value
}

/// The registry after the variable called `name` takes the value `d`.
pub open spec fn set_value(es: Seq<EntryModel>, name: Seq<char>, d: VarData<Seq<char>>) -> Seq<
    EntryModel,
> {
    let i = name_index(es, name);
    es.update(i, VarEntry { value: d, ..es[i] })
}

/// The entry that registering `var` adds.
pub open spec fn registered_entry<T: VarType>(var: CVar<T>) -> EntryModel {
    VarEntry {
        name: var.name@,
        kind: T::spec_kind(),
        description: var.description@,
        serializable: var.serializable,
        value: T::as_data(var.default@),
    }
}

proof fn lemma_name_index(es: Seq<EntryModel>, name: Seq<char>, i: int)
    requires
        names_distinct(es),
        0 <= i < es.len(),
        es[i].name == name,
    ensures
        has_name(es, name),
        name_index(es, name) == i,
{
    let j = name_index(es, name);
    assert(0 <= j < es.len() && es[j].name == name);
}

/// The console variables that have been registered, with their values, in the
/// order of registration. No two have the same name.
pub struct Vars {
    entries: Vec<VarEntry<&'static str, String>>,
}

impl View for Vars {
    type V = Seq<EntryModel>;

    closed spec fn view(&self) -> Seq<EntryModel> {
        self.entries@.map_values(|e: VarEntry<&'static str, String>| e@)
    }
}

impl Vars {
    #[verifier::type_invariant]
    closed spec fn names_are_distinct(&self) -> bool {
        names_distinct(self@)
    }

    pub fn new() -> (v: Vars)
        ensures
            v@ == Seq::<EntryModel>::empty(),
            names_distinct(v@),
    {
        let v = Vars { entries: Vec::new() };
        proof {
            assert(v@ =~= Seq::<EntryModel>::empty());
        }
        v
    }

    /// The position of the variable called `name`, if it is registered.
    fn find(&self, name: &str) -> (r: Option<usize>)
        ensures
            match r {
                Some(i) => i < self@.len() && self@[i as int].name == name@ && name_index(
                    self@,
                    name@,
                ) == i,
                None => !has_name(self@, name@),
            },
    {
        proof {
            use_type_invariant(self);
        }
        let mut i: usize = 0;
        while i < self.entries.len()
            invariant
                i <= self.entries@.len(),
                names_distinct(self@),
                self@.len() == self.entries@.len(),
                forall|j: int| 0 <= j < i ==> (#[trigger] self@[j]).name != name@,
            decreases self.entries@.len() - i,
        {
            if text_eq(self.entries[i].name, name) {
                proof {
                    lemma_name_index(self@, name@, i as int);
                }
                return Some(i);
            }
            i = i + 1;
        }
        None
    }

    /// Adds a variable, holding its default value. Registering a name twice
    /// is a programming error.
    pub fn register<T: VarType>(&mut self, var: CVar<T>)
        requires
            !has_name(old(self)@, var.name@),
        ensures
            final(self)@ == old(self)@.push(registered_entry(var)),
            names_distinct(final(self)@),
            kind_of(registered_entry(var).value) == T::spec_kind(),
    {
        proof {
            use_type_invariant(&*self);
        }
        let entry = VarEntry {
            name: var.name,
            kind: T::kind(),
            description: var.description,
            serializable: var.serializable,
            value: var.default.to_data(),
        };
        let ghost old_view = self@;
        let mut entries = Vec::new();
        std::mem::swap(&mut entries, &mut self.entries);
        entries.push(entry);
        proof {
            let nv = entries@.map_values(|e: VarEntry<&'static str, String>| e@);
            assert(nv =~= old_view.push(registered_entry(var)));
            assert forall|i: int, j: int|
                0 <= i < nv.len() && 0 <= j < nv.len() && i != j implies (#[trigger] nv[i]).name
                != (#[trigger] nv[j]).name by {
                if i < old_view.len() && j < old_view.len() {
                    assert(nv[i] == old_view[i]);
                    assert(nv[j] == old_view[j]);
                } else if i < old_view.len() {
                    assert(nv[i] == old_view[i]);
                } else {
                    assert(nv[j] == old_view[j]);
                }
            }
        }
        self.entries = entries;
    }

    /// The current value of `var`, which must be registered with this type.
    pub fn get<T: VarType>(&self, var: CVar<T>) -> (r: T)
        requires
            has_name(self@, var.name@),
            kind_of(lookup(self@, var.name@)) == T::spec_kind(),
        ensures
            T::as_data(r@) == lookup(self@, var.name@),
            names_distinct(self@),
    {
        proof {
            use_type_invariant(self);
        }
        let i = self.find(var.name);
        match i {
            Some(i) => {
                let r = T::from_data(&self.entries[i].value);
                match r {
                    Some(x) => x,
                    None => {
                        proof {
                            assert(false);
                        }
                        var.default
                    },
                }
            },
            None => {
                proof {
                    assert(false);
                }
                var.default
            },
        }
    }

    /// Gives `var`, which must be registered, the value `val`. Writing the
    /// configuration file afterwards is left to the caller (see `config_text`).
    pub fn set<T: VarType>(&mut self, var: CVar<T>, val: T)
        requires
            has_name(old(self)@, var.name@),
        ensures
            final(self)@ == set_value(old(self)@, var.name@, T::as_data(val@)),
            names_distinct(old(self)@),
            names_distinct(final(self)@),
    {
        proof {
            use_type_invariant(&*self);
        }
        let i = self.find(var.name);
        match i {
            Some(i) => {
                self.set_entry_value(i, val.to_data());
            },
            None => {
                proof {
                    assert(false);
                }
            },
        }
    }

    fn set_entry_value(&mut self, i: usize, d: VarValue)
        requires
            i < old(self)@.len(),
        ensures
            final(self)@ == old(self)@.update(
                i as int,
                VarEntry { value: d@, ..old(self)@[i as int] },
            ),
    {
        proof {
            use_type_invariant(&*self);
        }
        let ghost old_view = self@;
        let mut entries = Vec::new();
        std::mem::swap(&mut entries, &mut self.entries);
        let e = &entries[i];
        let ne = VarEntry {
            name: e.name,
            kind: e.kind,
            description: e.description,
            serializable: e.serializable,
            value: d,
        };
        entries.set(i, ne);
        proof {
            let nv = entries@.map_values(|e: VarEntry<&'static str, String>| e@);
            assert(nv =~= old_view.update(i as int, VarEntry { value: d@, ..old_view[i as int] }));
            assert forall|a: int, b: int|
                0 <= a < nv.len() && 0 <= b < nv.len() && a != b implies (#[trigger] nv[a]).name
                != (#[trigger] nv[b]).name by {
                assert(nv[a].name == old_view[a].name);
                assert(nv[b].name == old_view[b].name);
            }
        }
        self.entries = entries;
    }
}

// ---------------------------------------------------------------------------
// Laws of the registry.
// ---------------------------------------------------------------------------

/// A variable just registered holds its default value, and the names stay distinct.
pub proof fn law_register_then_lookup(es: Seq<EntryModel>, e: EntryModel)
    requires
        names_distinct(es),
        !has_name(es, e.name),
    ensures
        names_distinct(es.push(e)),
        has_name(es.push(e), e.name),
        lookup(es.push(e), e.name) == e.value,
        forall|n: Seq<char>| #[trigger] has_name(es, n) ==> lookup(es.push(e), n) == lookup(es, n),
{
    let nv = es.push(e);
    assert forall|i: int, j: int|
        0 <= i < nv.len() && 0 <= j < nv.len() && i != j implies (#[trigger] nv[i]).name != (
        #[trigger] nv[j]).name by {
        if i < es.len() && j < es.len() {
            assert(nv[i] == es[i]);
            assert(nv[j] == es[j]);
        } else if i < es.len() {
            assert(nv[i] == es[i]);
        } else {
            assert(nv[j] == es[j]);
        }
    }
    lemma_name_index(nv, e.name, es.len() as int);
    assert forall|n: Seq<char>| #[trigger] has_name(es, n) implies lookup(nv, n) == lookup(
        es,
        n,
    ) by {
        let i = name_index(es, n);
        assert(nv[i] == es[i]);
        lemma_name_index(nv, n, i);
    }
}

/// A variable just registered reads back as its default value with the
/// type it was registered with, and every variable registered before keeps
/// its name and its value.
pub proof fn law_register_then_get<T: VarType>(es: Seq<EntryModel>, var: CVar<T>)
    requires
        names_distinct(es),
        !has_name(es, var.name@),
    ensures
        has_name(es.push(registered_entry(var)), var.name@),
        lookup(es.push(registered_entry(var)), var.name@) == T::as_data(var.default@),
        forall|n: Seq<char>|
            #[trigger] has_name(es, n) ==> has_name(es.push(registered_entry(var)), n) && lookup(
                es.push(registered_entry(var)),
                n,
            ) == lookup(es, n),
{
    let e = registered_entry(var);
    law_register_then_lookup(es, e);
    assert forall|n: Seq<char>| #[trigger] has_name(es, n) implies has_name(es.push(e), n) by {
        let i = name_index(es, n);
        assert(es.push(e)[i] == es[i]);
    }
}

/// After setting a variable, reading it gives the value set; every other
/// variable keeps its value, and the set of names does not change.
pub proof fn law_set_then_lookup(es: Seq<EntryModel>, name: Seq<char>, d: VarData<Seq<char>>)
    requires
        names_distinct(es),
        has_name(es, name),
    ensures
        names_distinct(set_value(es, name, d)),
        lookup(set_value(es, name, d), name) == d,
        forall|n: Seq<char>|
            #[trigger] has_name(set_value(es, name, d), n) == has_name(es, n),
        forall|n: Seq<char>|
            has_name(es, n) && n != name ==> #[trigger] lookup(set_value(es, name, d), n) == lookup(
                es,
                n,
            ),
{
    let i = name_index(es, name);
    let nv = set_value(es, name, d);
    assert forall|a: int, b: int|
        0 <= a < nv.len() && 0 <= b < nv.len() && a != b implies (#[trigger] nv[a]).name != (
        #[trigger] nv[b]).name by {
        assert(nv[a].name == es[a].name);
        assert(nv[b].name == es[b].name);
    }
    lemma_name_index(nv, name, i);
    assert forall|n: Seq<char>| #[trigger] has_name(nv, n) == has_name(es, n) by {
        if has_name(es, n) {
            let j = name_index(es, n);
            assert(nv[j].name == es[j].name);
        }
        if has_name(nv, n) {
            let j = name_index(nv, n);
            assert(nv[j].name == es[j].name);
        }
    }
    assert forall|n: Seq<char>| has_name(es, n) && n != name implies #[trigger] lookup(
        nv,
        n,
    ) == lookup(es, n) by {
        let j = name_index(es, n);
        assert(nv[j] == es[j]);
        lemma_name_index(nv, n, j);
    }
}

// ---------------------------------------------------------------------------
// The configuration file.
// ---------------------------------------------------------------------------

/// What reading one line of the configuration file does to the registry:
/// comment and empty lines change nothing; otherwise the line is a name, a
/// space and a value, and a registered, saveable variable takes that value.
/// `None` where the reader stops: a line without a space, or the value of a
/// registered variable that cannot be read.
pub open spec fn config_line_effect(es: Seq<EntryModel>, line: Seq<char>) -> Option<
    Seq<EntryModel>,
> {
    if line.len() == 0 || line[0] == '#' {
        Some(es)
    } else if !has_char(line, ' ') {
        None
    } else {
        let p = first_index(line, ' ');
        let name = line.take(p);
        let arg = line.skip(p + 1);
        if has_name(es, name) {
            let e = es[name_index(es, name)];
            match parse_value(e.kind, arg) {
                None => None,
                Some(d) => if e.serializable {
                    Some(set_value(es, name, d))
                } else {
                    Some(es)
                },
            }
        } else {
            Some(es)
        }
    }
}

/// The line that saves one variable: its name, a space and its value.
pub open spec fn entry_line(e: EntryModel) -> Seq<char> {
    e.name + seq![' '] + value_text(e.value)
}

/// The lines of a text, as `str::lines` splits it: at each `\n`, dropping a
/// `\r` just before it; a final line ending adds no empty line.
pub open spec fn text_lines(s: Seq<char>) -> Seq<Seq<char>>
    decreases s.len(),
{
    if s.len() == 0 {
        Seq::empty()
    } else if has_char(s, '\n') {
        let p = first_index(s, '\n');
        let line = s.take(p);
        let line = if line.len() > 0 && line.last() == '\r' {
            line.drop_last()
        } else {
            line
        };
        if 0 <= p < s.len() {
            seq![line] + text_lines(s.skip(p + 1))
        } else {
            Seq::empty()
        }
    } else {
        seq![s]
    }
}

pub open spec fn comment_lines(lines: Seq<Seq<char>>) -> Seq<char>
    decreases lines.len(),
{
    if lines.len() == 0 {
        Seq::empty()
    } else {
        seq!['#', ' '] + lines[0] + seq!['\n'] + comment_lines(lines.skip(1))
    }
}

/// What saving writes for one variable: its description as comment lines, then
/// its line and an empty line; nothing for a variable that is not saved.
pub open spec fn entry_block(e: EntryModel) -> Seq<char> {
    if e.serializable {
        comment_lines(text_lines(e.description)) + entry_line(e) + seq!['\n', '\n']
    } else {
        Seq::empty()
    }
}

/// The whole configuration file, in order of registration.
pub open spec fn config_text_of(es: Seq<EntryModel>) -> Seq<char>
    decreases es.len(),
{
    if es.len() == 0 {
        Seq::empty()
    } else {
        config_text_of(es.drop_last()) + entry_block(es.last())
    }
}

proof fn lemma_comment_lines_push(lines: Seq<Seq<char>>, l: Seq<char>)
    ensures
        comment_lines(lines.push(l)) == comment_lines(lines) + seq!['#', ' '] + l + seq!['\n'],
    decreases lines.len(),
{
    if lines.len() == 0 {
        assert(lines.push(l).skip(1) =~= Seq::<Seq<char>>::empty());
        assert(lines.push(l)[0] == l);
        assert(comment_lines(lines.push(l).skip(1)) == Seq::<char>::empty());
        assert(comment_lines(lines) == Seq::<char>::empty());
        assert(comment_lines(lines.push(l)) =~= seq!['#', ' '] + l + seq!['\n']);
    } else {
        lemma_comment_lines_push(lines.skip(1), l);
        assert(lines.push(l).skip(1) =~= lines.skip(1).push(l));
        assert(comment_lines(lines.push(l)) =~= comment_lines(lines) + seq!['#', ' '] + l
            + seq!['\n']);
    }
}

/// Writes the comment lines for a description.
fn push_comment_lines(out: &mut String, desc: &str)
    ensures
        final(out)@ == old(out)@ + comment_lines(text_lines(desc@)),
{
    let n = desc.unicode_len();
    let mut start: usize = 0;
    let ghost mut done: Seq<Seq<char>> = Seq::empty();
    proof {
        assert(desc@.skip(0) =~= desc@);
        assert(done + text_lines(desc@) =~= text_lines(desc@));
        assert(comment_lines(done) == Seq::<char>::empty());
        assert(out@ =~= old(out)@ + comment_lines(done));
    }
    while start < n
        invariant
            n == desc@.len(),
            start <= n,
            out@ == old(out)@ + comment_lines(done),
            text_lines(desc@) == done + text_lines(desc@.skip(start as int)),
        decreases n - start,
    {
        let ghost t = desc@.skip(start as int);
        let found = find_char_from(desc, '\n', start);
        match found {
            Some(p) => {
                proof {
                    lemma_first_index(t, '\n', p - start);
                }
                let mut end = p;
                if end > start && desc.get_char(end - 1) == '\r' {
                    end = end - 1;
                }
                let ghost line = if end < p {
                    t.take(p - start).drop_last()
                } else {
                    t.take(p - start)
                };
                proof {
                    assert(t.take(p - start) =~= desc@.subrange(start as int, p as int));
                    assert(line =~= desc@.subrange(start as int, end as int));
                    assert(t.skip(p - start + 1) =~= desc@.skip(p + 1));
                    assert(text_lines(t) == seq![line] + text_lines(desc@.skip(p + 1)));
                    lemma_comment_lines_push(done, line);
                    assert(done + text_lines(desc@.skip(start as int)) =~= done.push(line)
                        + text_lines(desc@.skip(p + 1)));
                }
                push_char(out, '#');
                push_char(out, ' ');
                out.append(desc.substring_char(start, end));
                push_char(out, '\n');
                proof {
                    done = done.push(line);
                }
                start = p + 1;
            },
            None => {
                proof {
                    assert(t.len() > 0);
                    assert(text_lines(t) == seq![t]);
                    lemma_comment_lines_push(done, t);
                    assert(t =~= desc@.subrange(start as int, n as int));
                    assert(desc@.skip(n as int) =~= Seq::<char>::empty());
                    assert(done + text_lines(desc@.skip(start as int)) =~= done.push(t)
                        + text_lines(desc@.skip(n as int)));
                }
                push_char(out, '#');
                push_char(out, ' ');
                out.append(desc.substring_char(start, n));
                push_char(out, '\n');
                proof {
                    done = done.push(t);
                }
                start = n;
            },
        }
    }
    proof {
        assert(desc@.skip(start as int) =~= Seq::<char>::empty());
        assert(done + text_lines(desc@.skip(start as int)) =~= done);
    }
}

impl Vars {
    /// Whether reading `line` from the configuration file can proceed; where
    /// it cannot, reading the file stops the client.
    pub fn config_line_ok(&self, line: &str) -> (ok: bool)
        ensures
            ok == config_line_effect(self@, line@) is Some,
    {
        let n = line.unicode_len();
        if n == 0 || line.get_char(0) == '#' {
            return true;
        }
        match find_char_from(line, ' ', 0) {
            None => {
                proof {
                    assert(line@.skip(0) =~= line@);
                }
                false
            },
            Some(p) => {
                proof {
                    assert(line@.skip(0) =~= line@);
                    lemma_first_index(line@, ' ', p as int);
                }
                let name = line.substring_char(0, p);
                let arg = line.substring_char(p + 1, n);
                proof {
                    assert(name@ =~= line@.take(p as int));
                    assert(arg@ =~= line@.skip(p + 1));
                }
                match self.find(name) {
                    None => true,
                    Some(i) => text_to_value(self.entries[i].kind, arg).is_some(),
                }
            },
        }
    }

    /// Reads one line of the configuration file (see `config_line_effect`).
    pub fn load_config_line(&mut self, line: &str)
        requires
            config_line_effect(old(self)@, line@) is Some,
        ensures
            final(self)@ == config_line_effect(old(self)@, line@).unwrap(),
            names_distinct(final(self)@),
    {
        proof {
            use_type_invariant(&*self);
        }
        let n = line.unicode_len();
        if n == 0 || line.get_char(0) == '#' {
            return ;
        }
        match find_char_from(line, ' ', 0) {
            None => {
                proof {
                    assert(line@.skip(0) =~= line@);
                }
            },
            Some(p) => {
                proof {
                    assert(line@.skip(0) =~= line@);
                    lemma_first_index(line@, ' ', p as int);
                }
                let name = line.substring_char(0, p);
                let arg = line.substring_char(p + 1, n);
                proof {
                    assert(name@ =~= line@.take(p as int));
                    assert(arg@ =~= line@.skip(p + 1));
                }
                match self.find(name) {
                    None => {},
                    Some(i) => {
                        let kind = self.entries[i].kind;
                        let serializable = self.entries[i].serializable;
                        match text_to_value(kind, arg) {
                            None => {},
                            Some(v) => {
                                if serializable {
                                    self.set_entry_value(i, v);
                                }
                            },
                        }
                    },
                }
            },
        }
    }

    /// The text that saving the registry writes to the configuration file.
    pub fn config_text(&self) -> (s: String)
        ensures
            s@ == config_text_of(self@),
    {
        let mut out = String::new();
        let mut i: usize = 0;
        while i < self.entries.len()
            invariant
                i <= self.entries@.len(),
                self@.len() == self.entries@.len(),
                out@ == config_text_of(self@.take(i as int)),
            decreases self.entries@.len() - i,
        {
            let e = &self.entries[i];
            let ghost em = self@[i as int];
            proof {
                assert(self@.take(i + 1).drop_last() =~= self@.take(i as int));
                assert(self@.take(i + 1).last() == em);
            }
            if e.serializable {
                push_comment_lines(&mut out, e.description);
                out.append(e.name);
                push_char(&mut out, ' ');
                let v = value_to_text(&e.value);
                out.append(v.as_str());
                push_char(&mut out, '\n');
                push_char(&mut out, '\n');
                proof {
                    assert(out@ =~= config_text_of(self@.take(i as int)) + entry_block(em));
                }
            } else {
                proof {
                    assert(config_text_of(self@.take(i + 1)) =~= config_text_of(self@.take(i as int)));
                }
            }
            i = i + 1;
        }
        proof {
            assert(self@.take(self@.len() as int) =~= self@);
        }
        out
    }
}

/// Reading back the line that saving writes for a variable restores its value
/// (a string value must not contain a line break, which would split the line).
pub proof fn law_saved_line_restores(es: Seq<EntryModel>, name: Seq<char>)
    requires
        names_distinct(es),
        has_name(es, name),
        es[name_index(es, name)].serializable,
        kind_of(lookup(es, name)) == es[name_index(es, name)].kind,
        name.len() > 0,
        name[0] != '#',
        !has_char(name, ' '),
    ensures
        config_line_effect(es, entry_line(es[name_index(es, name)])) == Some(es),
{
    let e = es[name_index(es, name)];
    let line = entry_line(e);
    assert(line[name.len() as int] == ' ');
    assert forall|k: int| 0 <= k < name.len() implies line[k] != ' ' by {
        assert(line[k] == name[k]);
    }
    assert(is_first_index(line, ' ', name.len() as int));
    lemma_first_index(line, ' ', name.len() as int);
    assert(line[0] == name[0]);
    assert(line.take(name.len() as int) =~= name);
    assert(line.skip(name.len() as int + 1) =~= value_text(e.value));
    lemma_value_text_roundtrip(e.value);
    let i = name_index(es, name);
    assert(set_value(es, name, e.value) =~= es);
}

// ---------------------------------------------------------------------------
// Saving the whole file and reading it back.
// ---------------------------------------------------------------------------

/// The variables after the reader takes `lines` in turn; `None` where a line
/// stops it.
pub open spec fn load_lines(es: Seq<EntryModel>, lines: Seq<Seq<char>>) -> Option<Seq<EntryModel>>
    decreases lines.len(),
{
    if lines.len() == 0 {
        Some(es)
    } else {
        match config_line_effect(es, lines[0]) {
            Some(next) => load_lines(next, lines.skip(1)),
            None => None,
        }
    }
}

/// A variable whose saved line reads back: a name that is not empty, does
/// not start with `#` and holds no space or line break, a value of the
/// variable's kind, and no line break in a string value.
pub open spec fn entry_restorable(e: EntryModel) -> bool {
    &&& e.name.len() > 0
    &&& e.name[0] != '#'
    &&& !has_char(e.name, ' ')
    &&& !has_char(e.name, '\n')
    &&& kind_of(e.value) == e.kind
    &&& (e.value matches VarData::Text(t) ==> !has_char(t, '\n'))
}

/// A line as `str::lines` gives it back: without a `\r` at its end.
pub open spec fn strip_cr(a: Seq<char>) -> Seq<char> {
    if a.len() > 0 && a.last() == '\r' {
        a.drop_last()
    } else {
        a
    }
}

/// The blocks that saving writes for the variables, first to last.
pub open spec fn blocks(es: Seq<EntryModel>) -> Seq<char>
    decreases es.len(),
{
    if es.len() == 0 {
        Seq::empty()
    } else {
        entry_block(es[0]) + blocks(es.skip(1))
    }
}

proof fn lemma_blocks_push(es: Seq<EntryModel>)
    requires
        es.len() > 0,
    ensures
        blocks(es) == blocks(es.drop_last()) + entry_block(es.last()),
    decreases es.len(),
{
    if es.len() == 1 {
        assert(es.skip(1) =~= Seq::<EntryModel>::empty());
        assert(es.drop_last() =~= Seq::<EntryModel>::empty());
        assert(blocks(es.skip(1)) == Seq::<char>::empty());
        assert(blocks(es.drop_last()) == Seq::<char>::empty());
        assert(entry_block(es[0]) + Seq::<char>::empty() =~= entry_block(es[0]));
        assert(es.last() == es[0]);
        assert(blocks(es) =~= entry_block(es[0]));
    } else {
        lemma_blocks_push(es.skip(1));
        assert(es.skip(1).drop_last() =~= es.drop_last().skip(1));
        assert(es.drop_last()[0] == es[0]);
        assert(es.skip(1).last() == es.last());
        assert(blocks(es) =~= blocks(es.drop_last()) + entry_block(es.last()));
    }
}

proof fn lemma_blocks_config_text(es: Seq<EntryModel>)
    ensures
        blocks(es) == config_text_of(es),
    decreases es.len(),
{
    if es.len() > 0 {
        lemma_blocks_push(es);
        lemma_blocks_config_text(es.drop_last());
    }
}

proof fn lemma_split_line(a: Seq<char>, b: Seq<char>)
    requires
        !has_char(a, '\n'),
    ensures
        text_lines(a + seq!['\n'] + b) == seq![strip_cr(a)] + text_lines(b),
{
    let s = a + seq!['\n'] + b;
    assert(s[a.len() as int] == '\n');
    assert forall|k: int| 0 <= k < a.len() implies s[k] != '\n' by {
        assert(s[k] == a[k]);
    }
    assert(is_first_index(s, '\n', a.len() as int));
    lemma_first_index(s, '\n', a.len() as int);
    assert(s.take(a.len() as int) =~= a);
    assert(s.skip(a.len() as int + 1) =~= b);
}

proof fn lemma_load_one(es: Seq<EntryModel>, l: Seq<char>, rest: Seq<Seq<char>>)
    ensures
        load_lines(es, seq![l] + rest) == match config_line_effect(es, l) {
            Some(next) => load_lines(next, rest),
            None => None,
        },
{
    assert((seq![l] + rest)[0] == l);
    assert((seq![l] + rest).skip(1) =~= rest);
}

proof fn lemma_has_first_index(s: Seq<char>, c: char)
    requires
        has_char(s, c),
    ensures
        is_first_index(s, c, first_index(s, c)),
    decreases s.len(),
{
    if s[0] == c {
        assert(is_first_index(s, c, 0));
    } else {
        let k = choose|k: int| 0 <= k < s.len() && s[k] == c;
        assert(s.skip(1)[k - 1] == c);
        lemma_has_first_index(s.skip(1), c);
        let q = first_index(s.skip(1), c);
        assert forall|j: int| 0 <= j < q + 1 implies s[j] != c by {
            if j > 0 {
                assert(s[j] == s.skip(1)[j - 1]);
            }
        }
        assert(is_first_index(s, c, q + 1));
    }
}

proof fn lemma_text_lines_no_newline(s: Seq<char>)
    ensures
        forall|i: int| 0 <= i < text_lines(s).len() ==> !has_char(#[trigger] text_lines(s)[i], '\n'),
    decreases s.len(),
{
    if s.len() > 0 && has_char(s, '\n') {
        let p = first_index(s, '\n');
        lemma_has_first_index(s, '\n');
        lemma_text_lines_no_newline(s.skip(p + 1));
        let line0 = s.take(p);
        let line = if line0.len() > 0 && line0.last() == '\r' {
            line0.drop_last()
        } else {
            line0
        };
        assert(!has_char(line, '\n')) by {
            if has_char(line, '\n') {
                let k = choose|k: int| 0 <= k < line.len() && line[k] == '\n';
                assert(s[k] == '\n');
            }
        }
        let tl = text_lines(s);
        assert(tl == seq![line] + text_lines(s.skip(p + 1)));
        assert forall|i: int| 0 <= i < tl.len() implies !has_char(#[trigger] tl[i], '\n') by {
            if i > 0 {
                assert(tl[i] == text_lines(s.skip(p + 1))[i - 1]);
            }
        }
    } else if s.len() > 0 {
        assert(text_lines(s) == seq![s]);
        assert(text_lines(s)[0] == s);
    }
}

proof fn lemma_load_comments(es: Seq<EntryModel>, ls: Seq<Seq<char>>, rest: Seq<char>)
    requires
        forall|i: int| 0 <= i < ls.len() ==> !has_char(#[trigger] ls[i], '\n'),
    ensures
        load_lines(es, text_lines(comment_lines(ls) + rest)) == load_lines(es, text_lines(rest)),
    decreases ls.len(),
{
    if ls.len() == 0 {
        assert(comment_lines(ls) + rest =~= rest);
    } else {
        let a = seq!['#', ' '] + ls[0];
        assert(!has_char(a, '\n')) by {
            if has_char(a, '\n') {
                let k = choose|k: int| 0 <= k < a.len() && a[k] == '\n';
                assert(ls[0][k - 2] == '\n');
            }
        }
        let x = comment_lines(ls.skip(1)) + rest;
        assert(comment_lines(ls) + rest =~= a + seq!['\n'] + x);
        lemma_split_line(a, x);
        assert(strip_cr(a)[0] == '#');
        lemma_load_one(es, strip_cr(a), text_lines(x));
        lemma_load_comments(es, ls.skip(1), rest);
    }
}

proof fn lemma_value_text_line(d: VarData<Seq<char>>)
    requires
        d matches VarData::Text(t) ==> !has_char(t, '\n'),
    ensures
        !has_char(value_text(d), '\n'),
        value_text(d).len() > 0,
        value_text(d).last() != '\r',
{
    match d {
        VarData::Int(i) => {
            let n: nat = if i < 0 {
                (-i) as nat
            } else {
                i as nat
            };
            lemma_nat_text(n);
            let v = value_text(d);
            assert forall|k: int| 0 <= k < v.len() implies v[k] != '\n' by {
                if i < 0 {
                    if k > 0 {
                        assert(v[k] == nat_text(n)[k - 1]);
                    }
                } else {
                    assert(v[k] == nat_text(n)[k]);
                }
            }
            if i < 0 {
                assert(v.last() == nat_text(n).last());
            }
        },
        VarData::Bool(b) => {},
        VarData::Text(t) => {
            let v = value_text(d);
            assert forall|k: int| 0 <= k < v.len() implies v[k] != '\n' by {
                if 0 < k < v.len() - 1 {
                    assert(v[k] == t[k - 1]);
                }
            }
        },
    }
}

proof fn lemma_entry_line(e: EntryModel)
    requires
        entry_restorable(e),
    ensures
        !has_char(entry_line(e), '\n'),
        strip_cr(entry_line(e)) == entry_line(e),
{
    let line = entry_line(e);
    lemma_value_text_line(e.value);
    assert(!has_char(line, '\n')) by {
        if has_char(line, '\n') {
            let j = choose|j: int| 0 <= j < line.len() && line[j] == '\n';
            if j < e.name.len() {
                assert(e.name[j] == '\n');
            } else if j > e.name.len() {
                assert(value_text(e.value)[j - e.name.len() - 1] == '\n');
            }
        }
    }
    assert(line.last() == value_text(e.value).last());
}

proof fn lemma_load_block(es: Seq<EntryModel>, k: int, r: Seq<char>)
    requires
        names_distinct(es),
        0 <= k < es.len(),
        entry_restorable(es[k]),
    ensures
        load_lines(es, text_lines(entry_block(es[k]) + r)) == load_lines(es, text_lines(r)),
{
    let e = es[k];
    if !e.serializable {
        assert(entry_block(e) + r =~= r);
    } else {
        let line = entry_line(e);
        lemma_entry_line(e);
        let x = line + seq!['\n', '\n'] + r;
        let tl = text_lines(e.description);
        lemma_text_lines_no_newline(e.description);
        assert(entry_block(e) + r =~= comment_lines(tl) + x);
        lemma_load_comments(es, tl, x);
        assert(x =~= line + seq!['\n'] + (seq!['\n'] + r));
        lemma_split_line(line, seq!['\n'] + r);
        assert(seq!['\n'] + r =~= Seq::<char>::empty() + seq!['\n'] + r);
        lemma_split_line(Seq::<char>::empty(), r);
        lemma_name_index(es, e.name, k);
        law_saved_line_restores(es, e.name);
        lemma_load_one(es, line, text_lines(seq!['\n'] + r));
        lemma_load_one(es, Seq::<char>::empty(), text_lines(r));
    }
}

proof fn lemma_load_blocks(es: Seq<EntryModel>, k: int)
    requires
        names_distinct(es),
        forall|i: int| 0 <= i < es.len() ==> entry_restorable(#[trigger] es[i]),
        0 <= k <= es.len(),
    ensures
        load_lines(es, text_lines(blocks(es.skip(k)))) == Some(es),
    decreases es.len() - k,
{
    if k == es.len() {
        assert(es.skip(k) =~= Seq::<EntryModel>::empty());
    } else {
        lemma_load_blocks(es, k + 1);
        assert(es.skip(k)[0] == es[k]);
        assert(es.skip(k).skip(1) =~= es.skip(k + 1));
        let r = blocks(es.skip(k + 1));
        assert(blocks(es.skip(k)) == entry_block(es[k]) + r);
        lemma_load_block(es, k, r);
    }
}

/// Saving the variables and reading the whole file back gives the same
/// variables with the same values, when every variable saved can be read
/// back (see `entry_restorable`).
pub proof fn law_config_text_restores(es: Seq<EntryModel>)
    requires
        names_distinct(es),
        forall|i: int| 0 <= i < es.len() ==> entry_restorable(#[trigger] es[i]),
    ensures
        load_lines(es, text_lines(config_text_of(es))) == Some(es),
{
    lemma_load_blocks(es, 0);
    assert(es.skip(0) =~= es);
    lemma_blocks_config_text(es);
}

/// After a variable is set, the configuration text saved for the variables
/// reads back as the variables after the set: the one set with its new value,
/// every other with the value it had.
pub proof fn law_set_then_save_restores(es: Seq<EntryModel>, name: Seq<char>, d: VarData<Seq<char>>)
    requires
        names_distinct(es),
        has_name(es, name),
        forall|i: int| 0 <= i < es.len() ==> entry_restorable(#[trigger] es[i]),
        entry_restorable(VarEntry { value: d, ..es[name_index(es, name)] }),
    ensures
        load_lines(
            set_value(es, name, d),
            text_lines(config_text_of(set_value(es, name, d))),
        ) == Some(set_value(es, name, d)),
        lookup(set_value(es, name, d), name) == d,
        forall|n: Seq<char>|
            has_name(es, n) && n != name ==> #[trigger] lookup(set_value(es, name, d), n) == lookup(
                es,
                n,
            ),
{
    law_set_then_lookup(es, name, d);
    let nv = set_value(es, name, d);
    let j = name_index(es, name);
    assert forall|i: int| 0 <= i < nv.len() implies entry_restorable(#[trigger] nv[i]) by {
        if i != j {
            assert(nv[i] == es[i]);
        }
    }
    law_config_text_restores(nv);
}

// ---------------------------------------------------------------------------
// The variables of the console and their registration.
// ---------------------------------------------------------------------------

/// The log level of messages written to the terminal.
pub fn log_level_term() -> (v: CVar<String>)
    ensures
        v.name@ == "log_level_term"@,
        v.description@ == "log level of messages to log to the terminal"@,
        !v.mutable,
        v.serializable,
        v.default@ == "info"@,
{
    CVar {
        name: "log_level_term",
        description: "log level of messages to log to the terminal",
        mutable: false,
        serializable: true,
        default: String::from_str("info"),
    }
}

/// The log level of messages written to the log file.
pub fn log_level_file() -> (v: CVar<String>)
    ensures
        v.name@ == "log_level_file"@,
        v.description@ == "log level of messages to log to the log file"@,
        !v.mutable,
        v.serializable,
        v.default@ == "trace"@,
{
    CVar {
        name: "log_level_file",
        description: "log level of messages to log to the log file",
        mutable: false,
        serializable: true,
        default: String::from_str("trace"),
    }
}

/// Registers the console's own variables.
pub fn register_vars(vars: &mut Vars)
    requires
        !has_name(old(vars)@, "log_level_term"@),
        !has_name(old(vars)@, "log_level_file"@),
    ensures
        final(vars)@ == old(vars)@.push(log_level_term_entry()).push(log_level_file_entry()),
{
    let t = log_level_term();
    proof {
        reveal_strlit("log_level_term");
        reveal_strlit("log_level_file");
        assert("log_level_term"@[10] != "log_level_file"@[10]);
    }
    let ghost tv = t;
    vars.register(t);
    let f = log_level_file();
    proof {
        assert(!has_name(old(vars)@.push(registered_entry(tv)), "log_level_file"@)) by {
            let es = old(vars)@.push(registered_entry(tv));
            if has_name(es, "log_level_file"@) {
                let k = choose|k: int| 0 <= k < es.len() && (#[trigger] es[k]).name
                    == "log_level_file"@;
                if k < old(vars)@.len() {
                    assert(es[k] == old(vars)@[k]);
                }
            }
        }
    }
    vars.register(f);
}

/// The entry that registering `log_level_term()` adds.
pub open spec fn log_level_term_entry() -> EntryModel {
    VarEntry {
        name: "log_level_term"@,
        kind: VarKind::Text,
        description: "log level of messages to log to the terminal"@,
        serializable: true,
        value: VarData::Text("info"@),
    }
}

/// The entry that registering `log_level_file()` adds.
pub open spec fn log_level_file_entry() -> EntryModel {
    VarEntry {
        name: "log_level_file"@,
        kind: VarKind::Text,
        description: "log level of messages to log to the log file"@,
        serializable: true,
        value: VarData::Text("trace"@),
    }
}


// ---------------------------------------------------------------------------
// Log levels.
// ---------------------------------------------------------------------------

/// The severity of a log message, most severe first (as in the `log` crate).
#[derive(Clone, Copy, Debug, PartialEq, Eq, Structural)]
pub enum Level {
    Error,
    Warn,
    Info,
    Debug,
    Trace,
}

/// The lower-case name of a level.
pub open spec fn level_name(l: Level) -> Seq<char> {
    match l {
        Level::Error => "error"@,
        Level::Warn => "warn"@,
        Level::Info => "info"@,
        Level::Debug => "debug"@,
        Level::Trace => "trace"@,
    }
}

/// The level whose lower-case name is exactly `s`.
pub open spec fn level_named(s: Seq<char>) -> Option<Level> {
    if s == "trace"@ {
        Some(Level::Trace)
    } else if s == "debug"@ {
        Some(Level::Debug)
    } else if s == "info"@ {
        Some(Level::Info)
    } else if s == "warn"@ {
        Some(Level::Warn)
    } else if s == "error"@ {
        Some(Level::Error)
    } else {
        None
    }
}

/// The level named by `s`, or `default` when `s` names none.
pub fn log_level_from_str(s: &str, default: Level) -> (l: Level)
    ensures
        l == match level_named(s@) {
            Some(x) => x,
            None => default,
        },
{
    match _log_level_from_str(s) {
        Some(l) => l,
        None => default,
    }
}

/// The level whose lower-case name is `s`, if any.
pub fn _log_level_from_str(s: &str) -> (l: Option<Level>)
    ensures
        l == level_named(s@),
{
    if text_eq(s, "trace") {
        Some(Level::Trace)
    } else if text_eq(s, "debug") {
        Some(Level::Debug)
    } else if text_eq(s, "info") {
        Some(Level::Info)
    } else if text_eq(s, "warn") {
        Some(Level::Warn)
    } else if text_eq(s, "error") {
        Some(Level::Error)
    } else {
        None
    }
}

pub open spec fn ascii_lower(c: char) -> char {
    if 'A' <= c <= 'Z' {
        ((c as u32) + 32) as char
    } else {
        c
    }
}

/// The two texts are equal when ASCII letters are compared without case.
pub open spec fn eq_ignore_ascii_case(a: Seq<char>, b: Seq<char>) -> bool {
    a.len() == b.len() && forall|k: int| 0 <= k < a.len() ==> ascii_lower(a[k]) == ascii_lower(b[k])
}

/// What the `log` crate's `Level::from_str` accepts: the name of a level in
/// any ASCII case.
pub open spec fn level_parsed(s: Seq<char>) -> Option<Level> {
    if eq_ignore_ascii_case(s, "ERROR"@) {
        Some(Level::Error)
    } else if eq_ignore_ascii_case(s, "WARN"@) {
        Some(Level::Warn)
    } else if eq_ignore_ascii_case(s, "INFO"@) {
        Some(Level::Info)
    } else if eq_ignore_ascii_case(s, "DEBUG"@) {
        Some(Level::Debug)
    } else if eq_ignore_ascii_case(s, "TRACE"@) {
        Some(Level::Trace)
    } else {
        None
    }
}

/// `<log::Level as FromStr>::from_str`: the claim is that it accepts exactly
/// the names ERROR, WARN, INFO, DEBUG and TRACE compared without ASCII case
/// (the crate compares with `eq_ignore_ascii_case` against its name table).
#[verifier::external_body]
fn parse_log_level(s: &str) -> (r: Option<Level>)
    ensures
        r == level_parsed(s@),
{
    match <log::Level as std::str::FromStr>::from_str(s) {
        Ok(log::Level::Error) => Some(Level::Error),
        Ok(log::Level::Warn) => Some(Level::Warn),
        Ok(log::Level::Info) => Some(Level::Info),
        Ok(log::Level::Debug) => Some(Level::Debug),
        Ok(log::Level::Trace) => Some(Level::Trace),
        Err(_) => None,
    }
}

/// The terminal log level that the stored setting text names, if any.
pub fn term_log_level(setting: &str) -> (l: Option<Level>)
    ensures
        l == level_parsed(setting@),
{
    parse_log_level(setting)
}

/// The log file's level that the stored setting text names, if any.
pub fn file_log_level(setting: &str) -> (l: Option<Level>)
    ensures
        l == level_parsed(setting@),
{
    parse_log_level(setting)
}

/// An environment variable that, when set and naming a level, overrides a setting.
pub open spec fn env_level(v: Option<Seq<char>>) -> Option<Level> {
    match v {
        Some(s) => level_parsed(s),
        None => None,
    }
}

pub open spec fn or_else(a: Option<Level>, b: Level) -> Level {
    match a {
        Some(x) => x,
        None => b,
    }
}

/// The terminal and file log levels the console uses, each the first of
/// these that names a level. For the terminal: `RUST_LOG`, `LOG_LEVEL`, the
/// terminal setting, `info`. For the file: `LOG_LEVEL_FILE`, `LOG_LEVEL`,
/// `RUST_LOG`, the file setting, `debug`. The environment variables are read
/// without regard to ASCII case, the settings by their lower-case names only.
pub open spec fn chosen_levels(
    term_setting: Seq<char>,
    file_setting: Seq<char>,
    rust_log: Option<Seq<char>>,
    log_level: Option<Seq<char>>,
    log_level_file: Option<Seq<char>>,
) -> (Level, Level) {
    (
        or_else(
            env_level(rust_log),
            or_else(env_level(log_level), or_else(level_named(term_setting), Level::Info)),
        ),
        or_else(
            env_level(log_level_file),
            or_else(
                env_level(log_level),
                or_else(env_level(rust_log), or_else(level_named(file_setting), Level::Debug)),
            ),
        ),
    )
}

fn env_override(v: Option<&str>) -> (r: Option<Level>)
    ensures
        r == env_level(match v {
            Some(s) => Some(s@),
            None => None,
        }),
{
    match v {
        Some(s) => parse_log_level(s),
        None => None,
    }
}

/// Decides the console's log levels (terminal, file) from its settings and
/// from the environment variables `RUST_LOG`, `LOG_LEVEL` and `LOG_LEVEL_FILE`.
pub fn configure_levels(
    term_setting: &str,
    file_setting: &str,
    rust_log: Option<&str>,
    log_level: Option<&str>,
    log_level_file: Option<&str>,
) -> (r: (Level, Level))
    ensures
        r == chosen_levels(
            term_setting@,
            file_setting@,
            match rust_log {
                Some(s) => Some(s@),
                None => None,
            },
            match log_level {
                Some(s) => Some(s@),
                None => None,
            },
            match log_level_file {
                Some(s) => Some(s@),
                None => None,
            },
        ),
{
    let mut term = log_level_from_str(term_setting, Level::Info);
    let mut file = log_level_from_str(file_setting, Level::Debug);
    if let Some(level) = env_override(rust_log) {
        term = level;
        file = level;
    }
    if let Some(level) = env_override(log_level) {
        term = level;
        file = level;
    }
    if let Some(level) = env_override(rust_log) {
        term = level;
    }
    if let Some(level) = env_override(log_level_file) {
        file = level;
    }
    (term, file)
}
} // verus!
