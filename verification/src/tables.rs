//! Symbol tables: named records looked up without regard to ASCII case.

use vstd::prelude::*;
use crate::text::{eq_ci, eq_ignore_ascii_case};
use crate::types::{Handle, Vector2};

verus! {

/// A record of a symbol table, identified by its name.
pub trait TableRecord: Sized {
    /// The record's name.
    spec fn name_spec(&self) -> Seq<char>;

    /// The record's name.
    fn name(&self) -> (r: &str)
        ensures
            r@ == self.name_spec();
}

/// Names of a sequence of records.
pub open spec fn record_names<T: TableRecord>(rs: Seq<T>) -> Seq<Seq<char>> {
    rs.map_values(|r: T| r.name_spec())
}

/// Index of the first name at or after `k` that equals `name` with ASCII case
/// ignored (the length when none does).
pub open spec fn name_position(names: Seq<Seq<char>>, name: Seq<char>, k: int) -> int
    decreases names.len() - k,
{
    if k < 0 || k >= names.len() {
        names.len() as int
    } else if eq_ci(names[k], name) {
        k
    } else {
        name_position(names, name, k + 1)
    }
}

/// The first record with the given name, ASCII case ignored.
pub open spec fn record_named<T: TableRecord>(rs: Seq<T>, name: Seq<char>) -> Option<T> {
    let k = name_position(record_names(rs), name, 0);
    if k < rs.len() {
        Some(rs[k])
    } else {
        None
    }
}

/// Records after `add_or_replace`: the first record of the same name (ASCII case
/// ignored) is replaced, or the record is appended.
pub open spec fn with_record_named<T: TableRecord>(rs: Seq<T>, r: T) -> Seq<T> {
    let k = name_position(record_names(rs), r.name_spec(), 0);
    if k < rs.len() {
        rs.update(k, r)
    } else {
        rs.push(r)
    }
}

/// What `name_position` finds: the first matching position at or after `k`.
pub proof fn lemma_name_position(names: Seq<Seq<char>>, name: Seq<char>, k: int)
    requires
        0 <= k <= names.len(),
    ensures
        k <= name_position(names, name, k) <= names.len(),
        name_position(names, name, k) < names.len() ==> eq_ci(names[name_position(names, name, k)], name),
        forall|j: int| k <= j < name_position(names, name, k) ==> !eq_ci(#[trigger] names[j], name),
    decreases names.len() - k,
{
    if k < names.len() && !eq_ci(names[k], name) {
        lemma_name_position(names, name, k + 1);
    }
}

/// A symbol table.
#[derive(Debug, Clone, PartialEq)]
pub struct Table<T> {
    pub entries: Vec<T>,
}

impl<T: TableRecord> Table<T> {
    /// An empty table.
    pub fn new() -> (t: Self)
        ensures
            t.entries@.len() == 0,
    {
        Table { entries: Vec::new() }
    }

    /// Number of records.
    pub fn len(&self) -> (n: usize)
        ensures
            n == self.entries@.len(),
    {
        self.entries.len()
    }

    /// Position of the first record with the given name, ASCII case ignored.
    pub fn index_of(&self, name: &str) -> (i: usize)
        ensures
            i == name_position(record_names(self.entries@), name@, 0),
            i <= self.entries@.len(),
    {
        let ghost names = record_names(self.entries@);
        let mut i: usize = 0;
        while i < self.entries.len()
            invariant
                names == record_names(self.entries@),
                i <= self.entries@.len(),
                name_position(names, name@, 0) == name_position(names, name@, i as int),
            decreases self.entries@.len() - i,
        {
            if eq_ignore_ascii_case(self.entries[i].name(), name) {
                return i;
            }
            i += 1;
        }
        i
    }

    /// The first record with the given name, ASCII case ignored.
    pub fn get(&self, name: &str) -> (r: Option<&T>)
        ensures
            match r {
                Some(t) => record_named(self.entries@, name@) == Some(*t),
                None => record_named(self.entries@, name@) is None,
            },
    {
        let i = self.index_of(name);
        if i < self.entries.len() {
            Some(&self.entries[i])
        } else {
            None
        }
    }

    /// Store a record: it replaces the first record of the same name (ASCII case
    /// ignored), or is appended.
    pub fn add_or_replace(&mut self, record: T)
        ensures
            final(self).entries@ == with_record_named(old(self).entries@, record),
    {
        let i = self.index_of(record.name());
        if i < self.entries.len() {
            self.entries.set(i, record);
        } else {
            self.entries.push(record);
        }
    }
}

/// Layer state flags.
#[derive(Debug, Clone, Copy, PartialEq, Eq, Structural)]
pub struct LayerFlags {
    pub frozen: bool,
    pub locked: bool,
    /// The layer belongs to an external reference.
    pub xref_dependent: bool,
}

/// A layer record.
#[derive(Debug, Clone, PartialEq)]
pub struct Layer {
    pub handle: Handle,
    pub name: String,
    /// Name of the layer's linetype.
    pub line_type: String,
    /// Material; null for the default.
    pub material: Handle,
    /// Plot style; null for the default.
    pub plotstyle_handle: Handle,
    pub flags: LayerFlags,
    /// External-reference block that the layer comes from; null when local.
    pub xref_block_record_handle: Handle,
}

impl TableRecord for Layer {
    open spec fn name_spec(&self) -> Seq<char> {
        self.name@
    }

    fn name(&self) -> (r: &str) {
        self.name.as_str()
    }
}

impl Layer {
    /// A local layer with the given name, linetype "Continuous" and default material and plot style.
    pub fn new(name: &str) -> (l: Self)
        ensures
            l.name@ == name@,
            l.line_type@ == "Continuous"@,
            l.handle.value == 0,
            l.material.value == 0,
            l.plotstyle_handle.value == 0,
            l.flags == (LayerFlags { frozen: false, locked: false, xref_dependent: false }),
            l.xref_block_record_handle.value == 0,
    {
        Layer {
            handle: Handle::null(),
            name: name.to_owned(),
            line_type: "Continuous".to_owned(),
            material: Handle::null(),
            plotstyle_handle: Handle::null(),
            flags: LayerFlags { frozen: false, locked: false, xref_dependent: false },
            xref_block_record_handle: Handle::null(),
        }
    }

    /// A copy equal to this layer.
    pub fn copy(&self) -> (r: Self)
        ensures
            r == *self,
    {
        Layer {
            handle: self.handle,
            name: self.name.clone(),
            line_type: self.line_type.clone(),
            material: self.material,
            plotstyle_handle: self.plotstyle_handle,
            flags: self.flags,
            xref_block_record_handle: self.xref_block_record_handle,
        }
    }
}

/// Shape or text drawn inside a complex linetype dash. Floating-point values are binary64 bit patterns.
#[derive(Debug, Clone, PartialEq)]
pub struct ComplexLineTypeElement {
    pub shape_number: i16,
    /// Text or shape style.
    pub style_handle: Handle,
    pub text: String,
    pub offset: Vector2,
    pub scale: u64,
    pub rotation: u64,
}

/// One dash, gap or dot of a linetype. The length is a binary64 bit pattern.
#[derive(Debug, Clone, PartialEq)]
pub struct LineTypeElement {
    pub length: u64,
    /// Embedded shape or text, for complex linetypes.
    pub complex: Option<ComplexLineTypeElement>,
}

impl LineTypeElement {
    /// A copy equal to this element.
    pub fn copy(&self) -> (r: Self)
        ensures
            r == *self,
    {
        LineTypeElement {
            length: self.length,
            complex: match &self.complex {
                Some(c) => Some(ComplexLineTypeElement {
                    shape_number: c.shape_number,
                    style_handle: c.style_handle,
                    text: c.text.clone(),
                    offset: c.offset,
                    scale: c.scale,
                    rotation: c.rotation,
                }),
                None => None,
            },
        }
    }
}

/// A linetype record.
#[derive(Debug, Clone, PartialEq)]
pub struct LineType {
    pub handle: Handle,
    pub name: String,
    pub description: String,
    /// The linetype belongs to an external reference.
    pub xref_dependent: bool,
    /// External-reference block that the linetype comes from; null when local.
    pub xref_block_record_handle: Handle,
    pub elements: Vec<LineTypeElement>,
}

impl TableRecord for LineType {
    open spec fn name_spec(&self) -> Seq<char> {
        self.name@
    }

    fn name(&self) -> (r: &str) {
        self.name.as_str()
    }
}

impl LineType {
    /// A local linetype with the given name and no elements (a continuous line).
    pub fn new(name: &str) -> (l: Self)
        ensures
            l.name@ == name@,
            l.description@.len() == 0,
            l.handle.value == 0,
            !l.xref_dependent,
            l.xref_block_record_handle.value == 0,
            l.elements@.len() == 0,
    {
        LineType {
            handle: Handle::null(),
            name: name.to_owned(),
            description: String::new(),
            xref_dependent: false,
            xref_block_record_handle: Handle::null(),
            elements: Vec::new(),
        }
    }

    /// Whether any element embeds a shape or text.
    pub fn is_complex(&self) -> (b: bool)
        ensures
            b == exists|i: int| 0 <= i < self.elements@.len() && (#[trigger] self.elements@[i]).complex is Some,
    {
        let mut i: usize = 0;
        while i < self.elements.len()
            invariant
                i <= self.elements@.len(),
                forall|j: int| 0 <= j < i ==> (#[trigger] self.elements@[j]).complex is None,
            decreases self.elements@.len() - i,
        {
            if self.elements[i].complex.is_some() {
                return true;
            }
            i += 1;
        }
        false
    }

    /// A copy with the same fields and the same elements.
    pub fn copy(&self) -> (r: Self)
        ensures
            r.handle == self.handle,
            r.name == self.name,
            r.description == self.description,
            r.xref_dependent == self.xref_dependent,
            r.xref_block_record_handle == self.xref_block_record_handle,
            r.elements@ == self.elements@,
    {
        let mut elements: Vec<LineTypeElement> = Vec::new();
        let mut i: usize = 0;
        while i < self.elements.len()
            invariant
                i <= self.elements@.len(),
                elements@ == self.elements@.subrange(0, i as int),
            decreases self.elements@.len() - i,
        {
            elements.push(self.elements[i].copy());
            i += 1;
            assert(elements@ =~= self.elements@.subrange(0, i as int));
        }
        assert(self.elements@.subrange(0, self.elements@.len() as int) =~= self.elements@);
        LineType {
            handle: self.handle,
            name: self.name.clone(),
            description: self.description.clone(),
            xref_dependent: self.xref_dependent,
            xref_block_record_handle: self.xref_block_record_handle,
            elements,
        }
    }
}

/// A record of a table whose contents the library reads only by name.
#[derive(Debug, Clone, PartialEq)]
pub struct TableEntry {
    pub handle: Handle,
    pub name: String,
}

impl TableRecord for TableEntry {
    open spec fn name_spec(&self) -> Seq<char> {
        self.name@
    }

    fn name(&self) -> (r: &str) {
        self.name.as_str()
    }
}

/// Model of a layer record.
pub struct LayerModel {
    pub handle: Handle,
    pub name: Seq<char>,
    pub line_type: Seq<char>,
    pub material: Handle,
    pub plotstyle_handle: Handle,
    pub flags: LayerFlags,
    pub xref_block_record_handle: Handle,
}

impl View for Layer {
    type V = LayerModel;

    open spec fn view(&self) -> LayerModel {
        LayerModel {
            handle: self.handle,
            name: self.name@,
            line_type: self.line_type@,
            material: self.material,
            plotstyle_handle: self.plotstyle_handle,
            flags: self.flags,
            xref_block_record_handle: self.xref_block_record_handle,
        }
    }
}

/// Model of a linetype record.
pub struct LineTypeModel {
    pub handle: Handle,
    pub name: Seq<char>,
    pub description: Seq<char>,
    pub xref_dependent: bool,
    pub xref_block_record_handle: Handle,
    pub elements: Seq<LineTypeElement>,
}

impl View for LineType {
    type V = LineTypeModel;

    open spec fn view(&self) -> LineTypeModel {
        LineTypeModel {
            handle: self.handle,
            name: self.name@,
            description: self.description@,
            xref_dependent: self.xref_dependent,
            xref_block_record_handle: self.xref_block_record_handle,
            elements: self.elements@,
        }
    }
}

/// Models of a table's layers.
pub open spec fn layer_models(rs: Seq<Layer>) -> Seq<LayerModel> {
    rs.map_values(|r: Layer| r@)
}

/// Models of a table's linetypes.
pub open spec fn line_type_models(rs: Seq<LineType>) -> Seq<LineTypeModel> {
    rs.map_values(|r: LineType| r@)
}

/// Names of layer models.
pub open spec fn layer_model_names(ms: Seq<LayerModel>) -> Seq<Seq<char>> {
    ms.map_values(|m: LayerModel| m.name)
}

/// Names of linetype models.
pub open spec fn line_type_model_names(ms: Seq<LineTypeModel>) -> Seq<Seq<char>> {
    ms.map_values(|m: LineTypeModel| m.name)
}

/// The first layer with the given name, ASCII case ignored.
pub open spec fn layer_named(ms: Seq<LayerModel>, name: Seq<char>) -> Option<LayerModel> {
    let k = name_position(layer_model_names(ms), name, 0);
    if k < ms.len() {
        Some(ms[k])
    } else {
        None
    }
}

/// The first linetype with the given name, ASCII case ignored.
pub open spec fn line_type_named(ms: Seq<LineTypeModel>, name: Seq<char>) -> Option<LineTypeModel> {
    let k = name_position(line_type_model_names(ms), name, 0);
    if k < ms.len() {
        Some(ms[k])
    } else {
        None
    }
}

/// Names of layers are the names of their models.
pub proof fn lemma_layer_names(rs: Seq<Layer>)
    ensures
        record_names(rs) == layer_model_names(layer_models(rs)),
        layer_models(rs).len() == rs.len(),
{
    assert(record_names(rs) =~= layer_model_names(layer_models(rs)));
}

/// Names of linetypes are the names of their models.
pub proof fn lemma_line_type_names(rs: Seq<LineType>)
    ensures
        record_names(rs) == line_type_model_names(line_type_models(rs)),
        line_type_models(rs).len() == rs.len(),
{
    assert(record_names(rs) =~= line_type_model_names(line_type_models(rs)));
}

} // verus!
