//! Contains a higher-level abstraction for creating vertex and index
//! buffers.

use vstd::prelude::*;
use std::marker::PhantomData;
use crate::buffer::{Buffer, BufferDataUsage};
use crate::command::{GlCommand, GlCommandView, command_views};
use crate::context::{AContext, ContextExt, ContextOf};
use crate::context::buffer_context::{
    ArrayBufferBinding, ArrayBufferContext, ContextBufferExt, ElementArrayBufferBinding,
    ElementArrayBufferContext, index_type_gl_enum,
};
use crate::index_data::{IndexData, IndexDatum, encodes_indices};
use crate::program::ProgramAttrib;
use crate::types::{DrawingMode, GLObject};
use crate::vertex_data::{VertexAttribute, VertexBytes, VertexData, vertices_bytes};

verus! {

/// An error generated when trying add an attribute to an
/// [`AttribBinder`](struct.AttribBinder.html) using the
/// [`AttribBinder::add`](struct.AttribBinder.html#method.add) method.
#[derive(Debug)]
pub enum AttribAddError {
    /// An attribute was added that already exists in the
    /// [`AttribBinder`](struct.AttribBinder.html).
    DuplicateAttrib(String),
}

/// An error generated when the attributes of an
/// [`AttribBinder`](struct.AttribBinder.html) do not match those of a type of
/// vertex data: the names of the vertex attributes that the binder lacks, in
/// the order the vertex data lists them, and the names in the binder that
/// the vertex data lacks, in the order they were added.
#[derive(Debug)]
pub struct AttribError {
    missing_attribs: Vec<String>,
    unknown_attribs: Vec<String>,
}

impl AttribError {
    /// Whether the error lists what does not match between `attrs` and
    /// `binder`.
    pub open spec fn is_mismatch_of(&self, attrs: Seq<VertexAttribute>, binder: &AttribBinder) -> bool {
        &&& self.spec_missing() == missing_names(attrs, binder@)
        &&& self.spec_unknown() == unknown_names(entry_names(binder.spec_entries()), attrs)
    }

    /// The names of the vertex attributes that the binder lacks.
    pub closed spec fn spec_missing(&self) -> Seq<Seq<char>> {
        self.missing_attribs@.map_values(|s: String| s@)
    }

    /// The names in the binder that the vertex data lacks.
    pub closed spec fn spec_unknown(&self) -> Seq<Seq<char>> {
        self.unknown_attribs@.map_values(|s: String| s@)
    }
}

/// Whether some attribute of `attrs` is named `name`.
pub open spec fn has_attribute(attrs: Seq<VertexAttribute>, name: Seq<char>) -> bool {
    exists|i: int| 0 <= i < attrs.len() && attrs[i].name@ == name
}

/// The names of the attributes of `attrs` that `binder` lacks, in order
/// (a name appears once for each attribute that has it).
pub open spec fn missing_names(attrs: Seq<VertexAttribute>, binder: Map<Seq<char>, ProgramAttrib>) -> Seq<Seq<char>>
    decreases attrs.len(),
{
    if attrs.len() == 0 {
        Seq::empty()
    } else {
        let rest = missing_names(attrs.drop_last(), binder);
        if binder.dom().contains(attrs.last().name@) {
            rest
        } else {
            rest.push(attrs.last().name@)
        }
    }
}

/// The names of `names` that no attribute of `attrs` has, in order.
pub open spec fn unknown_names(names: Seq<Seq<char>>, attrs: Seq<VertexAttribute>) -> Seq<Seq<char>>
    decreases names.len(),
{
    if names.len() == 0 {
        Seq::empty()
    } else {
        let rest = unknown_names(names.drop_last(), attrs);
        if has_attribute(attrs, names.last()) {
            rest
        } else {
            rest.push(names.last())
        }
    }
}

/// Whether no attribute after the one at `i` has its name.
pub open spec fn is_last_named(attrs: Seq<VertexAttribute>, i: int) -> bool {
    forall|j: int| i < j < attrs.len() ==> attrs[j].name@ != attrs[i].name@
}

/// The indices, among the first `n`, of the attributes of `attrs` that no
/// later attribute shares a name with, in order: one attribute per name.
pub open spec fn last_named_indices(attrs: Seq<VertexAttribute>, n: nat) -> Seq<int>
    decreases n,
{
    if n == 0 {
        Seq::empty()
    } else {
        let rest = last_named_indices(attrs, (n - 1) as nat);
        if is_last_named(attrs, n - 1) {
            rest.push(n - 1)
        } else {
            rest
        }
    }
}

/// Each attribute of `attrs`, one per name, with the location `binder`
/// gives its name.
pub open spec fn attrib_bindings(attrs: Seq<VertexAttribute>, binder: Map<Seq<char>, ProgramAttrib>) -> Seq<(VertexAttribute, ProgramAttrib)> {
    last_named_indices(attrs, attrs.len()).map_values(|i: int| (attrs[i], binder[attrs[i].name@]))
}

/// Whether the names of `attrs` and those of `binder` are the same.
pub open spec fn attribs_match(attrs: Seq<VertexAttribute>, binder: &AttribBinder) -> bool {
    &&& missing_names(attrs, binder@).len() == 0
    &&& unknown_names(entry_names(binder.spec_entries()), attrs).len() == 0
}

/// The `glEnableVertexAttribArray` command for each binding.
pub open spec fn enable_commands(bindings: Seq<(VertexAttribute, ProgramAttrib)>) -> Seq<GlCommandView> {
    bindings.map_values(|b: (VertexAttribute, ProgramAttrib)| GlCommandView::EnableVertexAttribArray { index: b.1.gl_index })
}

/// The `glVertexAttribPointer` command that sets up an attribute.
pub open spec fn pointer_command(attrib: VertexAttribute, location: ProgramAttrib) -> GlCommandView {
    GlCommandView::VertexAttribPointer {
        index: location.gl_index,
        size: attrib.ty.components as i32,
        ty: attrib.ty.data.spec_gl_enum(),
        normalized: if attrib.ty.normalize { 1u8 } else { 0u8 },
        stride: attrib.stride as i32,
        offset: attrib.offset,
    }
}

/// The `glVertexAttribPointer` command for each binding.
pub open spec fn pointer_commands(bindings: Seq<(VertexAttribute, ProgramAttrib)>) -> Seq<GlCommandView> {
    bindings.map_values(|b: (VertexAttribute, ProgramAttrib)| pointer_command(b.0, b.1))
}

/// Setting up the attributes of a vertex buffer gives, for each binding of
/// an attribute to a program location in turn, one
/// `glEnableVertexAttribArray` of that location, and one
/// `glVertexAttribPointer` of that location with the attribute's component
/// count, the raw value of its data type, its normalization flag (1 or 0),
/// its stride and its offset; and each binding holds the location that the
/// binder gives the attribute's name.
pub proof fn lemma_attribute_setup_commands(attrs: Seq<VertexAttribute>, binder: Map<Seq<char>, ProgramAttrib>)
    ensures
        ({
            let b = attrib_bindings(attrs, binder);
            &&& enable_commands(b).len() == b.len()
            &&& pointer_commands(b).len() == b.len()
            &&& forall|i: int| 0 <= i < b.len() ==> #[trigger] enable_commands(b)[i] == (GlCommandView::EnableVertexAttribArray {
                index: b[i].1.gl_index,
            })
            &&& forall|i: int| 0 <= i < b.len() ==> #[trigger] pointer_commands(b)[i] == (GlCommandView::VertexAttribPointer {
                index: b[i].1.gl_index,
                size: b[i].0.ty.components as i32,
                ty: b[i].0.ty.data.spec_gl_enum(),
                normalized: if b[i].0.ty.normalize { 1u8 } else { 0u8 },
                stride: b[i].0.stride as i32,
                offset: b[i].0.offset,
            })
            &&& forall|i: int| 0 <= i < b.len() ==> #[trigger] b[i].1 == binder[b[i].0.name@]
        }),
{
}

/// Whether each attribute of `attrs` has between 1 and 4 components.
pub open spec fn components_valid(attrs: Seq<VertexAttribute>) -> bool {
    forall|i: int| 0 <= i < attrs.len() ==> 1 <= #[trigger] attrs[i].ty.components <= 4
}

/// The text of each of `strings`.
pub open spec fn names_of(strings: Seq<String>) -> Seq<Seq<char>> {
    strings.map_values(|s: String| s@)
}

/// The attribute and location that each of `matched` stands for: an index
/// into `attrs` and a location.
pub open spec fn bindings_of(attrs: Seq<VertexAttribute>, matched: Seq<(usize, ProgramAttrib)>) -> Seq<(VertexAttribute, ProgramAttrib)> {
    matched.map_values(|m: (usize, ProgramAttrib)| (attrs[m.0 as int], m.1))
}

/// Each attribute of `attrs` whose name `binder` lacks is listed among the
/// missing names.
proof fn lemma_missing_names_complete(attrs: Seq<VertexAttribute>, binder: Map<Seq<char>, ProgramAttrib>, i: int)
    requires
        0 <= i < attrs.len(),
        !binder.dom().contains(attrs[i].name@),
    ensures
        missing_names(attrs, binder).len() > 0,
    decreases attrs.len(),
{
    if i < attrs.len() - 1 {
        assert(attrs.drop_last()[i] == attrs[i]);
        lemma_missing_names_complete(attrs.drop_last(), binder, i);
    }
}

/// Whether some attribute of `attrs` is named `name`.
fn has_attribute_named(attrs: &Vec<VertexAttribute>, name: &String) -> (r: bool)
    ensures
        r == has_attribute(attrs@, name@),
{
    let mut i: usize = 0;
    while i < attrs.len()
        invariant
            i <= attrs@.len(),
            forall|j: int| 0 <= j < i ==> attrs@[j].name@ != name@,
        decreases attrs@.len() - i,
    {
        if attrs[i].name == *name {
            return true;
        }
        i = i + 1;
    }
    false
}

/// Whether no attribute of `attrs` after the one at `i` has its name.
fn is_last_named_at(attrs: &Vec<VertexAttribute>, i: usize) -> (r: bool)
    requires
        i < attrs@.len(),
    ensures
        r == is_last_named(attrs@, i as int),
{
    let n = attrs.len();
    let mut j: usize = i + 1;
    while j < n
        invariant
            i < j <= attrs@.len(),
            n == attrs@.len(),
            forall|k: int| i < k < j ==> attrs@[k].name@ != attrs@[i as int].name@,
        decreases attrs@.len() - j,
    {
        if attrs[j].name == attrs[i].name {
            return false;
        }
        j = j + 1;
    }
    true
}

/// The entries of a binder, as names and attribute locations.
pub type AttribEntries = Seq<(Seq<char>, ProgramAttrib)>;

/// Whether no two entries share a name.
pub open spec fn names_distinct(e: AttribEntries) -> bool {
    forall|i: int, j: int| 0 <= i < j < e.len() ==> e[i].0 != e[j].0
}

/// Whether some entry has the name `name`.
pub open spec fn entries_contain(e: AttribEntries, name: Seq<char>) -> bool {
    exists|i: int| 0 <= i < e.len() && e[i].0 == name
}

/// The map from each name to its attribute location.
pub open spec fn entries_map(e: AttribEntries) -> Map<Seq<char>, ProgramAttrib> {
    Map::new(
        |k: Seq<char>| entries_contain(e, k),
        |k: Seq<char>| e[choose|i: int| 0 <= i < e.len() && e[i].0 == k].1,
    )
}

/// The names of the entries, in the order in which they were added.
pub open spec fn entry_names(e: AttribEntries) -> Seq<Seq<char>> {
    e.map_values(|p: (Seq<char>, ProgramAttrib)| p.0)
}

/// In entries with distinct names, the entry at `i` is what the map gives
/// for its name.
proof fn lemma_entries_map_at(e: AttribEntries, i: int)
    requires
        names_distinct(e),
        0 <= i < e.len(),
    ensures
        entries_map(e).dom().contains(e[i].0),
        entries_map(e)[e[i].0] == e[i].1,
{
    let k = e[i].0;
    assert(entries_contain(e, k));
    let j = choose|j: int| 0 <= j < e.len() && e[j].0 == k;
    assert(j == i);
}

/// Adding an entry with a new name adds the name to the map.
proof fn lemma_entries_map_push(e: AttribEntries, k: Seq<char>, v: ProgramAttrib)
    requires
        names_distinct(e),
        !entries_contain(e, k),
    ensures
        names_distinct(e.push((k, v))),
        entries_map(e.push((k, v))) == entries_map(e).insert(k, v),
{
    let f = e.push((k, v));
    assert forall|i: int, j: int| 0 <= i < j < f.len() implies f[i].0 != f[j].0 by {
        if j == e.len() {
            assert(e[i].0 != k);
        } else {
            assert(e[i].0 != e[j].0);
        }
    }
    assert forall|x: Seq<char>| entries_contain(f, x) <==> (entries_contain(e, x) || x == k) by {
        if entries_contain(e, x) {
            let i = choose|i: int| 0 <= i < e.len() && e[i].0 == x;
            assert(f[i].0 == x);
        }
        if x == k {
            assert(f[e.len() as int].0 == x);
        }
        if entries_contain(f, x) && x != k {
            let i = choose|i: int| 0 <= i < f.len() && f[i].0 == x;
            assert(i < e.len());
            assert(e[i].0 == x);
        }
    }
    assert forall|x: Seq<char>| #[trigger] entries_map(f).dom().contains(x) implies entries_map(f)[x]
        == entries_map(e).insert(k, v)[x] by {
        let i = choose|i: int| 0 <= i < f.len() && f[i].0 == x;
        lemma_entries_map_at(f, i);
        if i < e.len() {
            assert(e[i] == f[i]);
            lemma_entries_map_at(e, i);
        }
    }
    assert(entries_map(f) =~= entries_map(e).insert(k, v));
}

/// Replacing the attribute of the entry at `i` updates its name in the map.
proof fn lemma_entries_map_update(e: AttribEntries, i: int, v: ProgramAttrib)
    requires
        names_distinct(e),
        0 <= i < e.len(),
    ensures
        names_distinct(e.update(i, (e[i].0, v))),
        entry_names(e.update(i, (e[i].0, v))) == entry_names(e),
        entries_map(e.update(i, (e[i].0, v))) == entries_map(e).insert(e[i].0, v),
{
    let k = e[i].0;
    let f = e.update(i, (k, v));
    assert forall|a: int, b: int| 0 <= a < b < f.len() implies f[a].0 != f[b].0 by {
        assert(f[a].0 == e[a].0 && f[b].0 == e[b].0);
    }
    assert(entry_names(f) =~= entry_names(e));
    assert forall|x: Seq<char>| entries_contain(f, x) <==> entries_contain(e, x) by {
        if entries_contain(e, x) {
            let j = choose|j: int| 0 <= j < e.len() && e[j].0 == x;
            assert(f[j].0 == x);
        }
        if entries_contain(f, x) {
            let j = choose|j: int| 0 <= j < f.len() && f[j].0 == x;
            assert(e[j].0 == x);
        }
    }
    assert forall|x: Seq<char>| #[trigger] entries_map(f).dom().contains(x) implies entries_map(f)[x]
        == entries_map(e).insert(k, v)[x] by {
        let j = choose|j: int| 0 <= j < f.len() && f[j].0 == x;
        lemma_entries_map_at(f, j);
        if j != i {
            lemma_entries_map_at(e, j);
        }
    }
    assert(entries_map(f) =~= entries_map(e).insert(k, v));
}

/// The entries held in `attribs`, as names and attribute locations.
pub open spec fn entries_of(attribs: Seq<(String, ProgramAttrib)>) -> AttribEntries {
    attribs.map_values(|p: (String, ProgramAttrib)| (p.0@, p.1))
}

/// The index of the entry of `attribs` named `name`, if there is one.
fn find_entry(attribs: &Vec<(String, ProgramAttrib)>, name: &String) -> (r: Option<usize>)
    ensures
        match r {
            Some(i) => i < attribs@.len() && entries_of(attribs@)[i as int].0 == name@,
            None => !entries_contain(entries_of(attribs@), name@),
        },
{
    let mut i: usize = 0;
    while i < attribs.len()
        invariant
            i <= attribs@.len(),
            forall|j: int| 0 <= j < i ==> entries_of(attribs@)[j].0 != name@,
        decreases attribs@.len() - i,
    {
        if attribs[i].0 == *name {
            return Some(i);
        }
        i = i + 1;
    }
    None
}

/// A type used to perform operations on a list of program attributes: a
/// map from vertex attribute names to the locations of the program's
/// attributes. The names keep the order in which they were added.
pub struct AttribBinder {
    attribs: Vec<(String, ProgramAttrib)>,
}

impl AttribBinder {
    /// The entries of the binder, in the order in which their names were
    /// added.
    pub closed spec fn spec_entries(&self) -> AttribEntries {
        entries_of(self.attribs@)
    }

    #[verifier::type_invariant]
    spec fn distinct_names(self) -> bool {
        names_distinct(self.spec_entries())
    }

    /// Create a new, empty `AttribBinder`.
    pub fn new() -> (r: Self)
        ensures
            r.spec_entries() == Seq::<(Seq<char>, ProgramAttrib)>::empty(),
            r@ == Map::<Seq<char>, ProgramAttrib>::empty(),
    {
        let r = AttribBinder { attribs: Vec::new() };
        assert(r.spec_entries() =~= Seq::<(Seq<char>, ProgramAttrib)>::empty());
        assert(r@ =~= Map::<Seq<char>, ProgramAttrib>::empty());
        r
    }

    /// The attribute location of the entry named `name`, if there is one.
    fn lookup(&self, name: &String) -> (r: Option<ProgramAttrib>)
        ensures
            r == (if self@.dom().contains(name@) { Some(self@[name@]) } else { None::<ProgramAttrib> }),
    {
        proof {
            use_type_invariant(self);
        }
        match find_entry(&self.attribs, name) {
            Some(i) => {
                proof {
                    lemma_entries_map_at(self.spec_entries(), i as int);
                }
                Some(self.attribs[i].1)
            },
            None => None,
        }
    }

    /// The names of the attributes of `attrs` that the binder lacks.
    fn missing(&self, attrs: &Vec<VertexAttribute>) -> (r: Vec<String>)
        ensures
            names_of(r@) == missing_names(attrs@, self@),
    {
        let mut r: Vec<String> = Vec::new();
        let mut i: usize = 0;
        while i < attrs.len()
            invariant
                i <= attrs@.len(),
                names_of(r@) == missing_names(attrs@.take(i as int), self@),
            decreases attrs@.len() - i,
        {
            assert(attrs@.take(i + 1).drop_last() =~= attrs@.take(i as int));
            match self.lookup(&attrs[i].name) {
                Some(_) => {},
                None => {
                    let ghost before = r@;
                    r.push(attrs[i].name.clone());
                    assert(names_of(r@) =~= names_of(before).push(attrs@[i as int].name@));
                },
            }
            i = i + 1;
        }
        assert(attrs@.take(attrs@.len() as int) =~= attrs@);
        r
    }

    /// The names in the binder that no attribute of `attrs` has.
    fn unknown(&self, attrs: &Vec<VertexAttribute>) -> (r: Vec<String>)
        ensures
            names_of(r@) == unknown_names(entry_names(self.spec_entries()), attrs@),
    {
        let ghost names = entry_names(self.spec_entries());
        let mut r: Vec<String> = Vec::new();
        let mut i: usize = 0;
        while i < self.attribs.len()
            invariant
                i <= self.attribs@.len(),
                names == entry_names(self.spec_entries()),
                names.len() == self.attribs@.len(),
                names_of(r@) == unknown_names(names.take(i as int), attrs@),
            decreases self.attribs@.len() - i,
        {
            assert(names.take(i + 1).drop_last() =~= names.take(i as int));
            assert(names.take(i + 1).last() == self.attribs@[i as int].0@);
            if !has_attribute_named(attrs, &self.attribs[i].0) {
                let ghost before = r@;
                r.push(self.attribs[i].0.clone());
                assert(names_of(r@) =~= names_of(before).push(self.attribs@[i as int].0@));
            }
            i = i + 1;
        }
        assert(names.take(names.len() as int) =~= names);
        r
    }

    /// Match the attributes `attrs` against the binder: the index in
    /// `attrs` and the location of one attribute per name, or the names
    /// that do not match.
    fn match_attribs(&self, attrs: &Vec<VertexAttribute>) -> (r: Result<Vec<(usize, ProgramAttrib)>, AttribError>)
        ensures
            match r {
                Ok(v) => attribs_match(attrs@, self) && bindings_of(attrs@, v@) == attrib_bindings(attrs@, self@)
                    && forall|k: int| 0 <= k < v@.len() ==> #[trigger] v@[k].0 < attrs@.len(),
                Err(e) => !attribs_match(attrs@, self) && e.is_mismatch_of(attrs@, self),
            },
    {
        let missing = self.missing(attrs);
        let unknown = self.unknown(attrs);
        if missing.len() != 0 || unknown.len() != 0 {
            return Err(AttribError { missing_attribs: missing, unknown_attribs: unknown });
        }
        assert(last_named_indices(attrs@, 0).map_values(
            |k: int| (attrs@[k], self@[attrs@[k].name@]),
        ) =~= bindings_of(attrs@, Seq::empty()));
        let mut v: Vec<(usize, ProgramAttrib)> = Vec::new();
        let mut i: usize = 0;
        while i < attrs.len()
            invariant
                i <= attrs@.len(),
                missing_names(attrs@, self@).len() == 0,
                bindings_of(attrs@, v@) == last_named_indices(attrs@, i as nat).map_values(
                    |k: int| (attrs@[k], self@[attrs@[k].name@]),
                ),
                forall|k: int| 0 <= k < v@.len() ==> #[trigger] v@[k].0 < attrs@.len(),
            decreases attrs@.len() - i,
        {
            if is_last_named_at(attrs, i) {
                let location = match self.lookup(&attrs[i].name) {
                    Some(l) => l,
                    None => {
                        proof {
                            lemma_missing_names_complete(attrs@, self@, i as int);
                        }
                        ProgramAttrib { gl_index: 0 }
                    },
                };
                let ghost before = v@;
                v.push((i, location));
                assert(bindings_of(attrs@, v@) =~= bindings_of(attrs@, before).push(
                    (attrs@[i as int], self@[attrs@[i as int].name@]),
                ));
            }
            assert(last_named_indices(attrs@, (i + 1) as nat).map_values(
                |k: int| (attrs@[k], self@[attrs@[k].name@]),
            ) =~= if is_last_named(attrs@, i as int) {
                last_named_indices(attrs@, i as nat).map_values(
                    |k: int| (attrs@[k], self@[attrs@[k].name@]),
                ).push((attrs@[i as int], self@[attrs@[i as int].name@]))
            } else {
                last_named_indices(attrs@, i as nat).map_values(
                    |k: int| (attrs@[k], self@[attrs@[k].name@]),
                )
            });
            i = i + 1;
        }
        Ok(v)
    }

    /// Enable all of the vertex attributes contained within the
    /// `AttribBinder`: the `glEnableVertexAttribArray` command of each
    /// attribute of `V`. The attributes of `V` are used to check the list of
    /// attributes.
    ///
    /// # Failures
    /// An error will be returned if the set of vertex attributes of `V` does
    /// not exactly match the list of attributes contained by the
    /// `AttribBinder`.
    pub fn enable<V: VertexData, C: AContext>(&self, gl: &mut C) -> (r: Result<Vec<GlCommand>, AttribError>)
        ensures
            *final(gl) == *old(gl),
            match r {
                Ok(cmds) => attribs_match(V::spec_attributes(), self) && command_views(cmds@)
                    == enable_commands(attrib_bindings(V::spec_attributes(), self@)),
                Err(e) => !attribs_match(V::spec_attributes(), self) && e.is_mismatch_of(
                    V::spec_attributes(),
                    self,
                ),
            },
    {
        let attrs = V::attributes();
        match self.match_attribs(&attrs) {
            Err(e) => Err(e),
            Ok(matched) => {
                let mut cmds: Vec<GlCommand> = Vec::new();
                let mut i: usize = 0;
                while i < matched.len()
                    invariant
                        i <= matched@.len(),
                        command_views(cmds@) == enable_commands(bindings_of(attrs@, matched@.take(i as int))),
                    decreases matched@.len() - i,
                {
                    let c = gl.enable_vertex_attrib_array(matched[i].1);
                    let ghost before = cmds@;
                    cmds.push(c);
                    assert(command_views(cmds@) =~= command_views(before).push(c@));
                    assert(bindings_of(attrs@, matched@.take(i + 1)) =~= bindings_of(attrs@, matched@.take(i as int)).push(
                        (attrs@[matched@[i as int].0 as int], matched@[i as int].1),
                    ));
                    assert(enable_commands(bindings_of(attrs@, matched@.take(i + 1))) =~= enable_commands(
                        bindings_of(attrs@, matched@.take(i as int)),
                    ).push(c@));
                    i = i + 1;
                }
                assert(matched@.take(matched@.len() as int) =~= matched@);
                Ok(cmds)
            },
        }
    }

    /// Set up each vertex attribute with the appropriate attribute options:
    /// the `glVertexAttribPointer` command of each attribute of `V`, which
    /// gives the options.
    ///
    /// # Failures
    /// An error will be returned if the set of vertex attributes of `V` does
    /// not exactly match the list of attributes contained by the
    /// `AttribBinder`.
    pub fn bind<V: VertexData, C: AContext>(&self, gl: &C) -> (r: Result<Vec<GlCommand>, AttribError>)
        requires
            attribs_match(V::spec_attributes(), self) ==> components_valid(V::spec_attributes()),
        ensures
            match r {
                Ok(cmds) => attribs_match(V::spec_attributes(), self) && command_views(cmds@)
                    == pointer_commands(attrib_bindings(V::spec_attributes(), self@)),
                Err(e) => !attribs_match(V::spec_attributes(), self) && e.is_mismatch_of(
                    V::spec_attributes(),
                    self,
                ),
            },
    {
        let attrs = V::attributes();
        match self.match_attribs(&attrs) {
            Err(e) => Err(e),
            Ok(matched) => {
                let mut cmds: Vec<GlCommand> = Vec::new();
                let mut i: usize = 0;
                while i < matched.len()
                    invariant
                        i <= matched@.len(),
                        components_valid(attrs@),
                        forall|k: int| 0 <= k < matched@.len() ==> #[trigger] matched@[k].0 < attrs@.len(),
                        command_views(cmds@) == pointer_commands(bindings_of(attrs@, matched@.take(i as int))),
                    decreases matched@.len() - i,
                {
                    let (index, location) = matched[i];
                    let a = &attrs[index];
                    assert(1 <= attrs@[index as int].ty.components <= 4);
                    let c = gl.vertex_attrib_pointer(location, a.ty.components, a.ty.data, a.ty.normalize, a.stride, a.offset);
                    let ghost before = cmds@;
                    cmds.push(c);
                    assert(command_views(cmds@) =~= command_views(before).push(c@));
                    assert(bindings_of(attrs@, matched@.take(i + 1)) =~= bindings_of(attrs@, matched@.take(i as int)).push(
                        (attrs@[index as int], location),
                    ));
                    assert(pointer_commands(bindings_of(attrs@, matched@.take(i + 1))) =~= pointer_commands(
                        bindings_of(attrs@, matched@.take(i as int)),
                    ).push(c@));
                    i = i + 1;
                }
                assert(matched@.take(matched@.len() as int) =~= matched@);
                Ok(cmds)
            },
        }
    }

    /// Add an attribute to the `AttribBinder`, under the name `name`.
    ///
    /// # Failures
    /// `add` will return an error if an attribute named `name` is already
    /// present; its location is replaced by `attrib` all the same.
    pub fn add(&mut self, name: &str, attrib: ProgramAttrib) -> (r: Result<(), AttribAddError>)
        ensures
            final(self)@ == old(self)@.insert(name@, attrib),
            old(self)@.dom().contains(name@) ==> entry_names(final(self).spec_entries()) == entry_names(
                old(self).spec_entries(),
            ),
            !old(self)@.dom().contains(name@) ==> final(self).spec_entries() == old(
                self,
            ).spec_entries().push((name@, attrib)),
            match r {
                Ok(()) => !old(self)@.dom().contains(name@),
                Err(AttribAddError::DuplicateAttrib(n)) => old(self)@.dom().contains(name@) && n@
                    == name@,
            },
    {
        proof {
            use_type_invariant(&*self);
        }
        let key: String = name.to_owned();
        let mut entries: Vec<(String, ProgramAttrib)> = Vec::new();
        std::mem::swap(&mut entries, &mut self.attribs);
        let ghost e = entries_of(entries@);
        assert(e == old(self).spec_entries());
        match find_entry(&entries, &key) {
            Some(i) => {
                let entry_name = entries[i].0.clone();
                entries.set(i, (entry_name, attrib));
                proof {
                    lemma_entries_map_update(e, i as int, attrib);
                    assert(entries_of(entries@) =~= e.update(
                        i as int,
                        (e[i as int].0, attrib),
                    ));
                }
                self.attribs = entries;
                Err(AttribAddError::DuplicateAttrib(key))
            },
            None => {
                let ghost k = key@;
                entries.push((key, attrib));
                proof {
                    lemma_entries_map_push(e, k, attrib);
                    assert(entries_of(entries@) =~= e.push(
                        (k, attrib),
                    ));
                }
                self.attribs = entries;
                Ok(())
            },
        }
    }
}

impl View for AttribBinder {
    type V = Map<Seq<char>, ProgramAttrib>;

    open spec fn view(&self) -> Map<Seq<char>, ProgramAttrib> {
        entries_map(self.spec_entries())
    }
}

/// An error generated when binding vertex attributes.
#[derive(Debug)]
pub enum VertexBindError {
    /// An `AttribError` that was generated.
    BindingError(AttribError),
    /// No attribute bindings were provided.
    NoAttributeBindings,
}

impl From<AttribError> for VertexBindError {
    fn from(attrib_error: AttribError) -> (r: VertexBindError)
        ensures
            r == VertexBindError::BindingError(attrib_error),
    {
        VertexBindError::BindingError(attrib_error)
    }
}

impl vstd::std_specs::convert::FromSpecImpl<AttribError> for VertexBindError {
    open spec fn obeys_from_spec() -> bool {
        true
    }

    open spec fn from_spec(attrib_error: AttribError) -> VertexBindError {
        VertexBindError::BindingError(attrib_error)
    }
}

/// A buffer that contains vertex data. In addition to storing a buffer, a
/// `VertexBuffer` stores an [`AttribBinder`](struct.AttribBinder.html) and a
/// count of the amount of `VertexData` that has been buffered.
pub struct VertexBuffer<T: VertexData> {
    attrib_binder: Option<AttribBinder>,
    buffer: Buffer,
    count: usize,
    phantom: PhantomData<T>,
}

impl<V: VertexData> VertexBuffer<V> {
    /// The binder of the vertex attributes, if one was set.
    pub closed spec fn spec_attrib_binder(&self) -> Option<AttribBinder> {
        self.attrib_binder
    }

    /// The underlying OpenGL buffer.
    pub closed spec fn spec_buffer(&self) -> Buffer {
        self.buffer
    }

    /// The number of vertices that have been buffered.
    pub closed spec fn spec_count(&self) -> usize {
        self.count
    }

    /// Set the `AttribBinder` that will contain all of the vertex attributes
    /// used when rendering.
    pub fn bind_attrib_pointers(&mut self, binder: AttribBinder)
        ensures
            final(self).spec_attrib_binder() == Some(binder),
            final(self).spec_buffer() == old(self).spec_buffer(),
            final(self).spec_count() == old(self).spec_count(),
    {
        self.attrib_binder = Some(binder);
    }

    /// Get a reference to underlying OpenGL buffer.
    pub fn buffer(&self) -> (r: &Buffer)
        ensures
            *r == self.spec_buffer(),
    {
        &self.buffer
    }

    /// Get a mutable reference to the underlying OpenGL buffer.
    pub fn buffer_mut(&mut self) -> (r: &mut Buffer)
        ensures
            *r == old(self).spec_buffer(),
            final(self).spec_buffer() == *final(r),
            final(self).spec_attrib_binder() == old(self).spec_attrib_binder(),
            final(self).spec_count() == old(self).spec_count(),
    {
        &mut self.buffer
    }
}

/// Represents a [`VertexBuffer`](struct.VertexBuffer.html) that has been
/// bound to a context.
pub struct VertexBufferBinding<'a, T: VertexData + 'a> {
    gl_buffer: ArrayBufferBinding<'a>,
    count: &'a mut usize,
    phantom: PhantomData<T>,
}

impl<'a, T: VertexData + 'a> VertexBufferBinding<'a, T> {
    /// The number of vertices that have been buffered.
    pub closed spec fn spec_count(&self) -> usize {
        *self.count
    }

    /// The borrow of the vertex buffer's count that the binding holds: its
    /// final value is the count that the vertex buffer keeps once the
    /// binding ends.
    pub closed spec fn spec_count_ref(self) -> &'a mut usize {
        self.count
    }

    /// Once the binding is done with (it will not change again), the count
    /// it holds is the count that its vertex buffer keeps.
    pub proof fn lemma_resolved_count(self)
        requires
            has_resolved(self),
        ensures
            self.spec_count() == *final(self.spec_count_ref()),
    {
    }
}

/// Represents an [`IndexBuffer`](struct.IndexBuffer.html) that has been
/// bound to a context.
pub struct IndexBufferBinding<'a, T: IndexDatum + 'a> {
    gl_buffer: ElementArrayBufferBinding<'a>,
    count: &'a mut usize,
    phantom: PhantomData<T>,
}

impl<'a, T: IndexDatum + 'a> IndexBufferBinding<'a, T> {
    /// The number of indices that have been buffered.
    pub closed spec fn spec_count(&self) -> usize {
        *self.count
    }

    /// The borrow of the index buffer's count that the binding holds: its
    /// final value is the count that the index buffer keeps once the
    /// binding ends.
    pub closed spec fn spec_count_ref(self) -> &'a mut usize {
        self.count
    }

    /// Once the binding is done with (it will not change again), the count
    /// it holds is the count that its index buffer keeps.
    pub proof fn lemma_resolved_count(self)
        requires
            has_resolved(self),
        ensures
            self.spec_count() == *final(self.spec_count_ref()),
    {
    }
}

/// A buffer that contains index data. In addition to storing a buffer, an
/// `IndexBuffer` stores a count of the amount of `IndexData` that has been
/// buffered.
pub struct IndexBuffer<T: IndexDatum> {
    buffer: Buffer,
    count: usize,
    phantom: PhantomData<T>,
}

impl<T: IndexDatum> IndexBuffer<T> {
    /// The underlying OpenGL buffer.
    pub closed spec fn spec_buffer(&self) -> Buffer {
        self.buffer
    }

    /// The number of indices that have been buffered.
    pub closed spec fn spec_count(&self) -> usize {
        self.count
    }

    /// Get a reference to the underlying OpenGL buffer.
    pub fn buffer(&self) -> (r: &Buffer)
        ensures
            *r == self.spec_buffer(),
    {
        &self.buffer
    }

    /// Get a mutable reference to the underlying OpenGL buffer.
    pub fn buffer_mut(&mut self) -> (r: &mut Buffer)
        ensures
            *r == old(self).spec_buffer(),
            final(self).spec_buffer() == *final(r),
            final(self).spec_count() == old(self).spec_count(),
    {
        &mut self.buffer
    }
}

impl<B, F, P, R, T> ContextOf<B, F, P, R, T> {
    /// Create a new, empty index buffer over `buffer` (a new buffer object,
    /// from `glGenBuffers`).
    pub fn new_index_buffer<I: IndexDatum>(&self, buffer: Buffer) -> (r: IndexBuffer<I>)
        ensures
            r.spec_buffer() == buffer,
            r.spec_count() == 0,
    {
        IndexBuffer { buffer: buffer, count: 0, phantom: PhantomData }
    }
}

/// The `glDrawArrays` command that draws `length` vertices from vertex
/// `start` as primitives of `mode`.
pub open spec fn draw_arrays_view(mode: DrawingMode, start: u32, length: usize) -> GlCommandView {
    GlCommandView::DrawArrays { mode: mode.spec_gl_enum(), first: start as i32, count: length as i32 }
}

/// Drawing all of a vertex buffer (`draw_arrays_vbo`) is drawing the range
/// (`draw_arrays_range_vbo`) that starts at vertex 0 and holds every
/// buffered vertex: that range lies within the buffered vertices, and both
/// give the same command.
pub proof fn lemma_draw_all_is_full_range<'a, V: VertexData>(gl_vbo: &VertexBufferBinding<'a, V>, mode: DrawingMode)
    ensures
        0 + gl_vbo.spec_count() <= gl_vbo.spec_count(),
        draw_arrays_view(mode, 0, gl_vbo.spec_count()) == (GlCommandView::DrawArrays {
            mode: mode.spec_gl_enum(),
            first: 0,
            count: gl_vbo.spec_count() as i32,
        }),
{
}

/// An extension trait that adds vertex buffer and index buffer-related
/// methods to OpenGL contexts.
pub trait ContextVertexBufferExt: AContext + Sized {
    /// Create a new, empty vertex buffer over `buffer` (a new buffer object,
    /// from `glGenBuffers`).
    fn new_vertex_buffer<V: VertexData>(&self, buffer: Buffer) -> (r: VertexBuffer<V>)
        ensures
            r.spec_attrib_binder() is None,
            r.spec_buffer() == buffer,
            r.spec_count() == 0,
    {
        VertexBuffer { attrib_binder: None, buffer: buffer, count: 0, phantom: PhantomData }
    }

    /// Send data to a vertex buffer (`glBufferData`): the bytes of each
    /// vertex in turn, as `VertexData::data_bytes` lays them out. Note that
    /// this will replace the buffer's current contents, if any.
    fn buffer_vertices<T: VertexData>(
        &self,
        gl_vbo: &mut VertexBufferBinding<T>,
        vertices: &[T],
        usage: BufferDataUsage,
    ) -> (c: GlCommand)
        ensures
            final(gl_vbo).spec_count() == vertices@.len(),
            *final(final(gl_vbo).spec_count_ref()) == *final(old(gl_vbo).spec_count_ref()),
            c@ matches GlCommandView::BufferData { target, data, usage: u } && target == 0x8892
                && data == vertices_bytes(vertices@) && u == usage.spec_gl_enum(),
    {
        *gl_vbo.count = vertices.len();
        let bytes = vertices.vertex_bytes();
        self.buffer_bytes(&mut gl_vbo.gl_buffer, bytes.as_slice(), usage)
    }

    /// Send data to an index buffer (`glBufferData`). Note that this will
    /// replace the buffer's current contents, if any.
    fn buffer_indices<T: IndexDatum>(
        &self,
        gl_ibo: &mut IndexBufferBinding<T>,
        indices: &[T],
        usage: BufferDataUsage,
    ) -> (c: GlCommand)
        ensures
            final(gl_ibo).spec_count() == indices@.len(),
            *final(final(gl_ibo).spec_count_ref()) == *final(old(gl_ibo).spec_count_ref()),
            c@ matches GlCommandView::BufferData { target, data, usage: u } && target == 0x8893
                && encodes_indices(indices@, data) && u == usage.spec_gl_enum(),
    {
        *gl_ibo.count = indices.len();
        let bytes = indices.index_bytes();
        self.buffer_bytes(&mut gl_ibo.gl_buffer, bytes.as_slice(), usage)
    }

    /// Use the data from the provided vertex buffer binding to render
    /// primitives (`glDrawArrays`).
    ///
    /// - `gl_vbo`: The binding of the vertex buffer to read vertices from.
    /// - `mode`: The type of primitives to draw.
    /// - `start`: The index of the first vertex to draw.
    /// - `length`: The number of vertices to draw.
    ///
    /// `start` and `length` must lie within the buffered vertices.
    fn draw_arrays_range_vbo<V: VertexData>(
        &self,
        gl_vbo: &VertexBufferBinding<V>,
        mode: DrawingMode,
        start: u32,
        length: usize,
    ) -> (c: GlCommand)
        requires
            start + length <= gl_vbo.spec_count(),
        ensures
            c@ == draw_arrays_view(mode, start, length),
    {
        self.draw_arrays_range(&gl_vbo.gl_buffer, mode, start, length)
    }

    /// Use the data from the provided vertex buffer binding to render
    /// primitives, using the full range of vertices that have been buffered.
    fn draw_arrays_vbo<V: VertexData>(&self, gl_vbo: &VertexBufferBinding<V>, mode: DrawingMode) -> (c: GlCommand)
        ensures
            c@ == draw_arrays_view(mode, 0, gl_vbo.spec_count()),
    {
        self.draw_arrays_range(&gl_vbo.gl_buffer, mode, 0, *gl_vbo.count)
    }

    /// Draw primitives using the first `length` indices of the provided
    /// index buffer as the indices into the provided vertex buffer.
    fn draw_n_elements_buffered_vbo<V: VertexData, I: IndexDatum>(
        &self,
        gl_vbo: &VertexBufferBinding<V>,
        gl_ibo: &IndexBufferBinding<I>,
        mode: DrawingMode,
        length: usize,
    ) -> (c: GlCommand)
        requires
            length <= gl_ibo.spec_count(),
        ensures
            c@ == (GlCommandView::DrawElements {
                mode: mode.spec_gl_enum(),
                count: length as i32,
                ty: index_type_gl_enum(I::spec_index_datum_type()),
                indices: None,
            }),
    {
        self.draw_n_elements_buffered(&gl_vbo.gl_buffer, &gl_ibo.gl_buffer, mode, length, I::index_datum_type())
    }

    /// Draw primitives using all of the buffered indices of the provided
    /// index buffer as the indices into the provided vertex buffer.
    fn draw_elements_buffered_vbo<V: VertexData, I: IndexDatum>(
        &self,
        gl_vbo: &VertexBufferBinding<V>,
        gl_ibo: &IndexBufferBinding<I>,
        mode: DrawingMode,
    ) -> (c: GlCommand)
        ensures
            c@ == (GlCommandView::DrawElements {
                mode: mode.spec_gl_enum(),
                count: gl_ibo.spec_count() as i32,
                ty: index_type_gl_enum(I::spec_index_datum_type()),
                indices: None,
            }),
    {
        self.draw_n_elements_buffered(&gl_vbo.gl_buffer, &gl_ibo.gl_buffer, mode, *gl_ibo.count, I::index_datum_type())
    }

    /// Draw primitives specified by the first `count` indices of the provided
    /// index array, treated as indices into the provided vertex buffer.
    fn draw_n_elements_vbo<V: VertexData, I: IndexDatum>(
        &self,
        gl_vbo: &VertexBufferBinding<V>,
        mode: DrawingMode,
        count: usize,
        indices: &[I],
    ) -> (c: GlCommand)
        requires
            count <= indices@.len(),
        ensures
            c@ matches GlCommandView::DrawElements { mode: m, count: n, ty, indices: Some(bytes) } && m
                == mode.spec_gl_enum() && n == count as i32 && ty == index_type_gl_enum(
                I::spec_index_datum_type(),
            ) && encodes_indices(indices@, bytes),
    {
        self.draw_n_elements(&gl_vbo.gl_buffer, mode, count, indices)
    }

    /// Draw primitives specified by all of the provided index array, treated
    /// as indices into the provided vertex buffer.
    fn draw_elements_vbo<V: VertexData, I: IndexDatum>(
        &mut self,
        gl_vbo: &VertexBufferBinding<V>,
        mode: DrawingMode,
        indices: &[I],
    ) -> (c: GlCommand)
        ensures
            *final(self) == *old(self),
            c@ matches GlCommandView::DrawElements { mode: m, count: n, ty, indices: Some(bytes) } && m
                == mode.spec_gl_enum() && n == indices@.len() as i32 && ty == index_type_gl_enum(
                I::spec_index_datum_type(),
            ) && encodes_indices(indices@, bytes),
    {
        self.draw_elements(&gl_vbo.gl_buffer, mode, indices)
    }
}

impl<C: AContext> ContextVertexBufferExt for C {
}

/// The commands that bind a vertex buffer whose buffer is `buffer` and set
/// up the attributes of `binder` for the vertex data `attrs`.
pub open spec fn bind_vertex_buffer_commands(
    buffer: Buffer,
    binder: AttribBinder,
    attrs: Seq<VertexAttribute>,
) -> Seq<GlCommandView> {
    let bindings = attrib_bindings(attrs, binder@);
    seq![GlCommandView::BindBuffer { target: 0x8892, buffer: buffer.spec_id() }] + enable_commands(bindings)
        + pointer_commands(bindings)
}

/// An OpenGL context that can have a vertex buffer bound.
///
/// # Note
/// Internally, vertex buffers are bound to the `GL_ARRAY_BUFFER` binding, so
/// any context that has a free `GL_ARRAY_BUFFER` is a `VertexBufferContext`.
pub trait VertexBufferContext: ArrayBufferContext + Sized {
    /// Bind a vertex buffer to this context, returning a binding, the
    /// remaining context and the commands that bind the buffer and enable and
    /// set up each vertex attribute. The vertex buffer must have an
    /// [`AttribBinder`](struct.AttribBinder.html) whose attributes match
    /// those of `V`.
    fn bind_vertex_buffer<'a, V: VertexData>(self, vbo: &'a mut VertexBuffer<V>) -> (r: (VertexBufferBinding<'a, V>, Self::Rest, Vec<GlCommand>))
        requires
            old(vbo).spec_attrib_binder() matches Some(binder) && attribs_match(V::spec_attributes(), &binder),
            components_valid(V::spec_attributes()),
        ensures
            r.0.spec_count() == old(vbo).spec_count(),
            final(vbo).spec_count() == *final(r.0.spec_count_ref()),
            final(vbo).spec_buffer() == old(vbo).spec_buffer(),
            final(vbo).spec_attrib_binder() == old(vbo).spec_attrib_binder(),
            command_views(r.2@) == bind_vertex_buffer_commands(
                old(vbo).spec_buffer(),
                old(vbo).spec_attrib_binder().unwrap(),
                V::spec_attributes(),
            ),
    {
        let (gl_buffer, mut rest, bind) = self.bind_array_buffer(&mut vbo.buffer);
        let mut commands: Vec<GlCommand> = Vec::new();
        commands.push(bind);
        if let Some(binder) = &vbo.attrib_binder {
            let enabled = binder.enable::<V, Self::Rest>(&mut rest);
            let pointers = binder.bind::<V, Self::Rest>(&rest);
            if let (Ok(mut e), Ok(mut p)) = (enabled, pointers) {
                let ghost ev = command_views(e@);
                let ghost pv = command_views(p@);
                commands.append(&mut e);
                commands.append(&mut p);
                assert(command_views(commands@) =~= seq![bind@] + ev + pv);
            }
        }
        (VertexBufferBinding { gl_buffer: gl_buffer, count: &mut vbo.count, phantom: PhantomData }, rest, commands)
    }
}

impl<C: ArrayBufferContext> VertexBufferContext for C {
}

/// An OpenGL context that can have an index buffer bound.
///
/// # Note
/// Internally, index buffers are bound to the `GL_ELEMENT_ARRAY_BUFFER`
/// binding, so any context that has a free `GL_ELEMENT_ARRAY_BUFFER` is an
/// `IndexBufferContext`.
pub trait IndexBufferContext: ElementArrayBufferContext + Sized {
    /// Bind an index buffer to this context, returning a binding, the
    /// remaining context and the `glBindBuffer` command.
    fn bind_index_buffer<'a, I: IndexDatum>(self, ibo: &'a mut IndexBuffer<I>) -> (r: (IndexBufferBinding<'a, I>, Self::Rest, GlCommand))
        ensures
            r.0.spec_count() == old(ibo).spec_count(),
            final(ibo).spec_count() == *final(r.0.spec_count_ref()),
            final(ibo).spec_buffer() == old(ibo).spec_buffer(),
            r.2@ == (GlCommandView::BindBuffer { target: 0x8893, buffer: old(ibo).spec_buffer().spec_id() }),
    {
        let (gl_buffer, rest, bind) = self.bind_element_array_buffer(&mut ibo.buffer);
        (IndexBufferBinding { gl_buffer: gl_buffer, count: &mut ibo.count, phantom: PhantomData }, rest, bind)
    }
}

impl<C: ElementArrayBufferContext> IndexBufferContext for C {
}

} // verus!
