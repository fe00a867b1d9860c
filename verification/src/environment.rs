use crate::console::starts_with_bytes;
use crate::text::int_text;
use crate::text::join;
use crate::text::spec_int_text;
use crate::text::spec_join;
use crate::wire::string_views;
use vstd::prelude::*;
use vstd::string::*;
use vstd::utf8::*;

verus! {

/// The interpreter's code for the type of the null object. The constants
/// that follow are the codes of the other types that the kernel tells apart.
pub const NILSXP: u32 = 0;

/// A cell of a pairlist.
pub const LISTSXP: u32 = 2;

/// A closure.
pub const CLOSXP: u32 = 3;

/// An environment.
pub const ENVSXP: u32 = 4;

/// A promise.
pub const PROMSXP: u32 = 5;

/// A logical vector.
pub const LGLSXP: u32 = 10;

/// An integer vector.
pub const INTSXP: u32 = 13;

/// A vector of real numbers.
pub const REALSXP: u32 = 14;

/// A vector of complex numbers.
pub const CPLXSXP: u32 = 15;

/// A character vector.
pub const STRSXP: u32 = 16;

/// A list.
pub const VECSXP: u32 = 19;

/// An expression vector.
pub const EXPRSXP: u32 = 20;

/// A vector of raw bytes.
pub const RAWSXP: u32 = 24;

/// What the kernel reads of an object of the interpreter.
#[derive(Clone, Debug, PartialEq, Eq)]
pub struct ObjectInfo {
    /// A handle by which whoever read the object finds it again; the
    /// library passes it on and never looks at it.
    pub handle: u64,
    /// The code of the object's type.
    pub rtype: u32,
    /// The number of its elements.
    pub length: i64,
    /// Whether it is an object of the formal class system.
    pub is_s4: bool,
    /// The number of slots its formal class names.
    pub slot_count: usize,
    /// Its class attribute; empty where it has none.
    pub classes: Vec<String>,
    /// Whether it inherits from the class of factors.
    pub inherits_factor: bool,
    /// Whether it inherits from the class of data frames.
    pub inherits_data_frame: bool,
    /// Whether it has a names attribute.
    pub has_names: bool,
    /// The number of its levels, where it is a factor.
    pub levels: i64,
    /// Its dim attribute, where it has one.
    pub dim: Option<Vec<i32>>,
}

/// How a name is bound in an environment.
#[derive(Clone, Copy, Debug, PartialEq, Eq, Structural)]
pub enum BindingKind {
    Regular,
    /// The value is computed by a function at each use.
    Active,
    /// The value is a promise; the flag says whether it was forced.
    Promise(bool),
}

/// The two data fields of a compact representation.
#[derive(Clone, Copy, Debug, PartialEq, Eq, Structural)]
pub struct BindingExtraAltrep {
    pub data1: u64,
    pub data2: u64,
}

/// What else is known of a binding's value.
#[derive(Clone, Copy, Debug, PartialEq, Eq, Structural)]
pub enum BindingExtra {
    Nothing,
    Altrep(BindingExtraAltrep),
}

/// One cell of an environment's frame, as the kernel reads it.
#[derive(Clone, Debug, PartialEq, Eq)]
pub struct FrameInfo {
    /// The name bound.
    pub name: String,
    /// Whether the binding is an active one.
    pub is_active: bool,
    /// The value in the cell.
    pub value: ObjectInfo,
    /// Where the value is a promise that was forced, what it came to.
    pub promise_value: Option<ObjectInfo>,
    /// Where the value has a compact representation, its data.
    pub altrep: Option<BindingExtraAltrep>,
}

/// A name bound in an environment.
#[derive(Clone, Debug, PartialEq, Eq)]
pub struct Binding {
    pub name: String,
    pub value: ObjectInfo,
    pub kind: BindingKind,
    pub extra: BindingExtra,
    /// What a forced promise came to.
    pub promise_value: Option<ObjectInfo>,
}

/// The kind of a binding: active where the cell says so, a promise where
/// its value is one, regular otherwise.
pub open spec fn spec_binding_kind(is_active: bool, rtype: u32, forced: bool) -> BindingKind {
    if is_active {
        BindingKind::Active
    } else if rtype == PROMSXP {
        BindingKind::Promise(forced)
    } else {
        BindingKind::Regular
    }
}

/// What else is known of a binding, from the data of a compact
/// representation where there is one.
pub open spec fn spec_binding_extra(altrep: Option<BindingExtraAltrep>) -> BindingExtra {
    match altrep {
        Some(data) => BindingExtra::Altrep(data),
        None => BindingExtra::Nothing,
    }
}

/// A name starts with a dot.
pub open spec fn spec_is_hidden(name: Seq<char>) -> bool {
    encode_utf8("."@).is_prefix_of(encode_utf8(name))
}

impl Binding {
    /// A promise that counts as forced has the value it came to.
    pub open spec fn wf(&self) -> bool {
        self.kind == BindingKind::Promise(true) ==> self.promise_value is Some
    }

    /// The binding of a frame's cell. An active binding is active whatever
    /// its value; a promise is forced where it has come to a value; anything
    /// else is a regular binding.
    pub fn new(frame: FrameInfo) -> (binding: Binding)
        ensures
            binding.name == frame.name,
            binding.value == frame.value,
            binding.promise_value == frame.promise_value,
            binding.kind == spec_binding_kind(
                frame.is_active,
                frame.value.rtype,
                frame.promise_value is Some,
            ),
            binding.extra == spec_binding_extra(frame.altrep),
            binding.wf(),
    {
        let kind = if frame.is_active {
            BindingKind::Active
        } else if frame.value.rtype == PROMSXP {
            BindingKind::Promise(frame.promise_value.is_some())
        } else {
            BindingKind::Regular
        };
        let extra = match frame.altrep {
            Some(data) => BindingExtra::Altrep(data),
            None => BindingExtra::Nothing,
        };
        Binding {
            name: frame.name,
            value: frame.value,
            kind,
            extra,
            promise_value: frame.promise_value,
        }
    }

    /// Whether the name is one of those kept from listings.
    pub fn is_hidden(&self) -> (hidden: bool)
        ensures
            hidden == spec_is_hidden(self.name@),
    {
        starts_with_bytes(self.name.as_str().as_bytes(), ".".as_bytes())
    }
}

/// An object of the formal class system has children where its class names
/// slots. Otherwise a list and an expression vector have children unless
/// empty, a pairlist and an environment always, anything else never.
pub open spec fn spec_has_children(value: ObjectInfo) -> bool {
    if value.is_s4 {
        value.slot_count > 0
    } else if value.rtype == VECSXP || value.rtype == EXPRSXP {
        value.length != 0
    } else {
        value.rtype == LISTSXP || value.rtype == ENVSXP
    }
}

/// Whether an object has children to show.
pub fn has_children(value: &ObjectInfo) -> (res: bool)
    ensures
        res == spec_has_children(*value),
{
    if value.is_s4 {
        value.slot_count > 0
    } else if value.rtype == VECSXP || value.rtype == EXPRSXP {
        value.length != 0
    } else {
        value.rtype == LISTSXP || value.rtype == ENVSXP
    }
}

/// An atomic vector without a class is simple, and so is a factor.
pub open spec fn spec_is_simple_vector(value: ObjectInfo) -> bool {
    if value.rtype == LGLSXP || value.rtype == REALSXP || value.rtype == CPLXSXP || value.rtype
        == STRSXP || value.rtype == RAWSXP {
        value.classes@.len() == 0
    } else if value.rtype == INTSXP {
        value.classes@.len() == 0 || value.inherits_factor
    } else {
        false
    }
}

/// Whether an object is a simple vector.
pub fn is_simple_vector(value: &ObjectInfo) -> (res: bool)
    ensures
        res == spec_is_simple_vector(*value),
{
    let rtype: u32 = value.rtype;
    if rtype == LGLSXP || rtype == REALSXP || rtype == CPLXSXP || rtype == STRSXP || rtype
        == RAWSXP {
        value.classes.len() == 0
    } else if rtype == INTSXP {
        value.classes.len() == 0 || value.inherits_factor
    } else {
        false
    }
}

/// An optional string by its view.
pub open spec fn option_view(s: Option<String>) -> Option<Seq<char>> {
    match s {
        Some(s) => Some(s@),
        None => None,
    }
}

/// The first of an object's classes, where it has any.
pub fn first_class(value: &ObjectInfo) -> (class: Option<String>)
    ensures
        option_view(class) == if value.classes@.len() == 0 {
            None
        } else {
            Some(value.classes@[0]@)
        },
{
    if value.classes.len() == 0 {
        None
    } else {
        Some(value.classes[0].clone())
    }
}

/// All of an object's classes, with a slash between each two.
pub fn all_classes(value: &ObjectInfo) -> (classes: String)
    ensures
        classes@ == spec_join(string_views(value.classes@), "/"@),
{
    join(&value.classes, "/")
}

/// Why an object could not be read as what it was taken for.
#[derive(Clone, Debug, PartialEq, Eq)]
pub enum Error {
    /// The object has the first type, where one of the others was expected.
    UnexpectedType(u32, Vec<u32>),
    /// The text was to be an index into a list and is no integer.
    InvalidIndex(String),
}

/// The first place in a chain of cells whose type is not that of a pairlist
/// cell, or the chain's length where there is none.
pub open spec fn spec_first_stranger(cells: Seq<u32>) -> int
    decreases cells.len(),
{
    if cells.len() == 0 {
        0
    } else if cells[0] != LISTSXP {
        0
    } else {
        1 + spec_first_stranger(cells.skip(1))
    }
}

proof fn lemma_first_stranger(cells: Seq<u32>, i: int)
    requires
        0 <= i <= cells.len(),
        forall|j: int| 0 <= j < i ==> cells[j] == LISTSXP,
        i < cells.len() ==> cells[i] != LISTSXP,
    ensures
        spec_first_stranger(cells) == i,
    decreases cells.len(),
{
    if cells.len() > 0 && cells[0] == LISTSXP {
        assert(i > 0);
        assert forall|j: int| 0 <= j < i - 1 implies cells.skip(1)[j] == LISTSXP by {
            assert(cells.skip(1)[j] == cells[j + 1]);
        }
        lemma_first_stranger(cells.skip(1), i - 1);
    }
}

/// The length of a pairlist, given the types of the cells of its chain up
/// to the closing nil. A cell of another type stops the count with an error
/// that names the type found.
pub fn pairlist_size(cells: &Vec<u32>) -> (res: Result<isize, Error>)
    requires
        cells@.len() <= isize::MAX,
    ensures
        match res {
            Ok(n) => n == cells@.len() && spec_first_stranger(cells@) == cells@.len(),
            Err(Error::UnexpectedType(found, expected)) => {
                &&& spec_first_stranger(cells@) < cells@.len()
                &&& found == cells@[spec_first_stranger(cells@)]
                &&& expected@ == seq![LISTSXP]
            },
            Err(Error::InvalidIndex(_)) => false,
        },
{
    let mut n: isize = 0;
    let mut i: usize = 0;
    while i < cells.len()
        invariant
            i <= cells.len(),
            cells@.len() <= isize::MAX,
            n == i,
            forall|j: int| 0 <= j < i ==> cells@[j] == LISTSXP,
        decreases cells.len() - i,
    {
        if cells[i] != LISTSXP {
            proof {
                lemma_first_stranger(cells@, i as int);
            }
            let mut expected: Vec<u32> = Vec::new();
            expected.push(LISTSXP);
            return Err(Error::UnexpectedType(cells[i], expected));
        }
        n = n + 1;
        i += 1;
    }
    proof {
        lemma_first_stranger(cells@, i as int);
    }
    Ok(n)
}

/// The short name of a vector's type; a factor shows the number of its
/// levels.
pub open spec fn spec_vec_type(value: ObjectInfo) -> Seq<char> {
    if value.rtype == INTSXP {
        if value.inherits_factor {
            "fct("@ + spec_int_text(value.levels as int) + ")"@
        } else {
            "int"@
        }
    } else if value.rtype == REALSXP {
        "dbl"@
    } else if value.rtype == LGLSXP {
        "lgl"@
    } else if value.rtype == STRSXP {
        "str"@
    } else if value.rtype == RAWSXP {
        "raw"@
    } else if value.rtype == CPLXSXP {
        "cplx"@
    } else {
        "???"@
    }
}

/// The short name of a vector's type.
pub fn vec_type(value: &ObjectInfo) -> (name: String)
    ensures
        name@ == spec_vec_type(*value),
{
    let rtype: u32 = value.rtype;
    if rtype == INTSXP {
        if value.inherits_factor {
            let mut name = "fct(".to_owned();
            name.append(int_text(value.levels).as_str());
            name.append(")");
            name
        } else {
            "int".to_owned()
        }
    } else if rtype == REALSXP {
        "dbl".to_owned()
    } else if rtype == LGLSXP {
        "lgl".to_owned()
    } else if rtype == STRSXP {
        "str".to_owned()
    } else if rtype == RAWSXP {
        "raw".to_owned()
    } else if rtype == CPLXSXP {
        "cplx".to_owned()
    } else {
        "???".to_owned()
    }
}

/// The extents of a list, each in decimal.
pub open spec fn spec_extents(dim: Seq<i32>) -> Seq<Seq<char>> {
    dim.map_values(|d: i32| spec_int_text(d as int))
}

/// The shape of a vector for display: nothing for a single element, the
/// length in brackets otherwise, and the extents with commas between them
/// where the vector has dimensions.
pub open spec fn spec_vec_shape(value: ObjectInfo) -> Seq<char> {
    match value.dim {
        None => if value.length == 1 {
            Seq::empty()
        } else {
            " ["@ + spec_int_text(value.length as int) + "]"@
        },
        Some(dim) => " ["@ + spec_join(spec_extents(dim@), ","@) + "]"@,
    }
}

/// The shape of a vector for display.
pub fn vec_shape(value: &ObjectInfo) -> (shape: String)
    ensures
        shape@ == spec_vec_shape(*value),
{
    match &value.dim {
        None => {
            if value.length == 1 {
                String::new()
            } else {
                let mut shape = " [".to_owned();
                shape.append(int_text(value.length).as_str());
                shape.append("]");
                shape
            }
        },
        Some(dim) => {
            let mut extents: Vec<String> = Vec::new();
            let mut i: usize = 0;
            while i < dim.len()
                invariant
                    i <= dim.len(),
                    extents@.len() == i,
                    string_views(extents@) == spec_extents(dim@.take(i as int)),
                decreases dim.len() - i,
            {
                let d: i32 = dim[i];
                let ghost before = extents@;
                extents.push(int_text(d as i64));
                proof {
                    let now = string_views(extents@);
                    let want = spec_extents(dim@.take(i + 1));
                    assert(now.len() == want.len());
                    assert forall|j: int| 0 <= j < now.len() implies now[j] == want[j] by {
                        if j < i {
                            assert(string_views(before)[j] == spec_extents(
                                dim@.take(i as int),
                            )[j]);
                        }
                    }
                    assert(now =~= want);
                }
                i += 1;
            }
            assert(dim@.take(dim.len() as int) =~= dim@);
            let mut shape = " [".to_owned();
            shape.append(join(&extents, ",").as_str());
            shape.append("]");
            shape
        },
    }
}

/// The name of a compact representation's class: its package, two colons,
/// its own name.
pub fn altrep_class(pkg: &str, klass: &str) -> (name: String)
    ensures
        name@ == pkg@ + "::"@ + klass@,
{
    let mut name = pkg.to_owned();
    name.append("::");
    name.append(klass);
    name
}

/// An environment of the interpreter, as the kernel reads it: either a hash
/// table, each of whose slots holds a chain of bindings, or a single chain.
#[derive(Clone, Debug, PartialEq, Eq)]
pub struct Environment {
    /// The slots of the hash table, where the environment is hashed.
    pub hashtab: Option<Vec<Vec<Binding>>>,
    /// The chain of an environment that is not hashed.
    pub frame: Vec<Binding>,
}

/// The bindings of a hash table, slot after slot.
pub open spec fn spec_flatten(table: Seq<Vec<Binding>>) -> Seq<Binding>
    decreases table.len(),
{
    if table.len() == 0 {
        Seq::empty()
    } else {
        table[0]@ + spec_flatten(table.skip(1))
    }
}

/// The bindings of an environment in the order in which they are walked.
pub open spec fn spec_bindings(env: Environment) -> Seq<Binding> {
    match env.hashtab {
        Some(table) => spec_flatten(table@),
        None => env.frame@,
    }
}

/// A walk over the bindings of a hashed environment.
#[derive(Debug)]
pub struct HashedEnvironmentIter<'a> {
    pub hashtab: &'a Vec<Vec<Binding>>,
    /// The slot of the binding that comes next, or the number of slots at
    /// the end.
    pub hashtab_index: usize,
    /// The place of that binding in its slot's chain.
    pub frame_index: usize,
}

proof fn lemma_skip_empty_slot(table: Seq<Vec<Binding>>, i: int)
    requires
        0 <= i < table.len(),
        table[i]@.len() == 0,
    ensures
        spec_flatten(table.skip(i)) == spec_flatten(table.skip(i + 1)),
{
    assert(table.skip(i).skip(1) =~= table.skip(i + 1));
    assert(table.skip(i)[0]@ + spec_flatten(table.skip(i + 1)) =~= spec_flatten(
        table.skip(i + 1),
    ));
}

proof fn lemma_flatten_at(table: Seq<Vec<Binding>>, i: int)
    requires
        0 <= i < table.len(),
    ensures
        spec_flatten(table.skip(i)) == table[i]@ + spec_flatten(table.skip(i + 1)),
{
    assert(table.skip(i).skip(1) =~= table.skip(i + 1));
}

impl<'a> HashedEnvironmentIter<'a> {
    /// The walk stands at a binding or at the end.
    pub open spec fn wf(&self) -> bool {
        &&& self.hashtab_index <= self.hashtab@.len()
        &&& self.hashtab_index < self.hashtab@.len() ==> self.frame_index
            < self.hashtab@[self.hashtab_index as int]@.len()
    }

    /// The bindings still to come.
    pub open spec fn remaining(&self) -> Seq<Binding> {
        if self.hashtab_index < self.hashtab@.len() {
            self.hashtab@[self.hashtab_index as int]@.skip(self.frame_index as int) + spec_flatten(
                self.hashtab@.skip(self.hashtab_index + 1),
            )
        } else {
            Seq::empty()
        }
    }

    /// The first slot from `from` on that is not empty, or the number of
    /// slots where all are.
    fn seek(hashtab: &Vec<Vec<Binding>>, from: usize) -> (index: usize)
        requires
            from <= hashtab@.len(),
        ensures
            from <= index <= hashtab@.len(),
            index < hashtab@.len() ==> hashtab@[index as int]@.len() > 0,
            spec_flatten(hashtab@.skip(index as int)) == spec_flatten(hashtab@.skip(from as int)),
    {
        let mut index: usize = from;
        while index < hashtab.len() && hashtab[index].len() == 0
            invariant
                from <= index <= hashtab@.len(),
                spec_flatten(hashtab@.skip(index as int)) == spec_flatten(
                    hashtab@.skip(from as int),
                ),
            decreases hashtab@.len() - index,
        {
            proof {
                lemma_skip_empty_slot(hashtab@, index as int);
            }
            index += 1;
        }
        index
    }

    /// A walk from the first binding of the first slot that has any.
    pub fn new(hashtab: &'a Vec<Vec<Binding>>) -> (iter: Self)
        ensures
            iter.hashtab == hashtab,
            iter.wf(),
            iter.remaining() == spec_flatten(hashtab@),
    {
        let index = Self::seek(hashtab, 0);
        let iter = HashedEnvironmentIter { hashtab, hashtab_index: index, frame_index: 0 };
        proof {
            assert(hashtab@.skip(0) =~= hashtab@);
            if index < hashtab@.len() {
                lemma_flatten_at(hashtab@, index as int);
                assert(hashtab@[index as int]@.skip(0) =~= hashtab@[index as int]@);
            } else {
                assert(hashtab@.skip(index as int) =~= Seq::<Vec<Binding>>::empty());
            }
        }
        iter
    }

    /// The next binding, and the walk moved past it; `None` at the end.
    pub fn next(&mut self) -> (item: Option<&'a Binding>)
        requires
            old(self).wf(),
        ensures
            final(self).wf(),
            final(self).hashtab == old(self).hashtab,
            match item {
                Some(binding) => old(self).remaining().len() > 0 && *binding == old(
                    self,
                ).remaining()[0] && final(self).remaining() == old(self).remaining().skip(1),
                None => old(self).remaining().len() == 0 && final(self).remaining().len() == 0,
            },
    {
        let table: &'a Vec<Vec<Binding>> = self.hashtab;
        if self.hashtab_index >= table.len() {
            return None;
        }
        let slot: &'a Vec<Binding> = &table[self.hashtab_index];
        let place: usize = self.frame_index;
        let len: usize = slot.len();
        let binding: &'a Binding = &slot[place];
        let ghost before = self.remaining();
        let ghost rest = spec_flatten(table@.skip(self.hashtab_index + 1));
        if place + 1 < len {
            self.frame_index = place + 1;
            assert(self.remaining() =~= before.skip(1));
        } else {
            let index = Self::seek(table, self.hashtab_index + 1);
            proof {
                assert(before =~= seq![*binding] + rest);
                if index < table@.len() {
                    lemma_flatten_at(table@, index as int);
                    assert(table@[index as int]@.skip(0) =~= table@[index as int]@);
                } else {
                    assert(table@.skip(index as int) =~= Seq::<Vec<Binding>>::empty());
                }
            }
            self.hashtab_index = index;
            self.frame_index = 0;
            assert(self.remaining() =~= before.skip(1));
        }
        Some(binding)
    }
}

/// A walk over the bindings of an environment that is not hashed.
#[derive(Debug)]
pub struct NonHashedEnvironmentIter<'a> {
    pub frame: &'a Vec<Binding>,
    /// The place of the binding that comes next.
    pub frame_index: usize,
}

impl<'a> NonHashedEnvironmentIter<'a> {
    /// The walk stands at a binding or at the end.
    pub open spec fn wf(&self) -> bool {
        self.frame_index <= self.frame@.len()
    }

    /// The bindings still to come.
    pub open spec fn remaining(&self) -> Seq<Binding> {
        self.frame@.skip(self.frame_index as int)
    }

    /// A walk from the head of the chain.
    pub fn new(frame: &'a Vec<Binding>) -> (iter: Self)
        ensures
            iter.frame == frame,
            iter.wf(),
            iter.remaining() == frame@,
    {
        assert(frame@.skip(0) =~= frame@);
        NonHashedEnvironmentIter { frame, frame_index: 0 }
    }

    /// The next binding, and the walk moved past it; `None` at the end.
    pub fn next(&mut self) -> (item: Option<&'a Binding>)
        requires
            old(self).wf(),
        ensures
            final(self).wf(),
            final(self).frame == old(self).frame,
            match item {
                Some(binding) => old(self).remaining().len() > 0 && *binding == old(
                    self,
                ).remaining()[0] && final(self).remaining() == old(self).remaining().skip(1),
                None => old(self).remaining().len() == 0 && final(self).remaining().len() == 0,
            },
    {
        let frame: &'a Vec<Binding> = self.frame;
        if self.frame_index >= frame.len() {
            None
        } else {
            let binding: &'a Binding = &frame[self.frame_index];
            let ghost before = self.remaining();
            self.frame_index = self.frame_index + 1;
            assert(self.remaining() =~= before.skip(1));
            Some(binding)
        }
    }
}

/// A walk over the bindings of an environment of either make.
#[derive(Debug)]
pub enum EnvironmentIter<'a> {
    Hashed(HashedEnvironmentIter<'a>),
    NonHashed(NonHashedEnvironmentIter<'a>),
}

impl<'a> EnvironmentIter<'a> {
    /// The walk stands at a binding or at the end.
    pub open spec fn wf(&self) -> bool {
        match self {
            EnvironmentIter::Hashed(iter) => iter.wf(),
            EnvironmentIter::NonHashed(iter) => iter.wf(),
        }
    }

    /// The bindings still to come.
    pub open spec fn remaining(&self) -> Seq<Binding> {
        match self {
            EnvironmentIter::Hashed(iter) => iter.remaining(),
            EnvironmentIter::NonHashed(iter) => iter.remaining(),
        }
    }

    /// A walk over all the bindings of `env`: through the hash table where
    /// it has one, along its chain where not.
    pub fn new(env: &'a Environment) -> (iter: Self)
        ensures
            iter.wf(),
            iter.remaining() == spec_bindings(*env),
    {
        match &env.hashtab {
            Some(table) => EnvironmentIter::Hashed(HashedEnvironmentIter::new(table)),
            None => EnvironmentIter::NonHashed(NonHashedEnvironmentIter::new(&env.frame)),
        }
    }

    /// The next binding, and the walk moved past it; `None` at the end.
    pub fn next(&mut self) -> (item: Option<&'a Binding>)
        requires
            old(self).wf(),
        ensures
            final(self).wf(),
            match item {
                Some(binding) => old(self).remaining().len() > 0 && *binding == old(
                    self,
                ).remaining()[0] && final(self).remaining() == old(self).remaining().skip(1),
                None => old(self).remaining().len() == 0 && final(self).remaining().len() == 0,
            },
    {
        match self {
            EnvironmentIter::Hashed(iter) => iter.next(),
            EnvironmentIter::NonHashed(iter) => iter.next(),
        }
    }

    /// Walks to the end and says how many bindings were still to come. The
    /// number must fit in `usize`.
    pub fn count(self) -> (n: usize)
        requires
            self.wf(),
            self.remaining().len() <= usize::MAX,
        ensures
            n == self.remaining().len(),
    {
        let mut iter = self;
        let mut n: usize = 0;
        loop
            invariant
                iter.wf(),
                n + iter.remaining().len() == self.remaining().len(),
                self.remaining().len() <= usize::MAX,
            ensures
                n == self.remaining().len(),
            decreases iter.remaining().len(),
        {
            match iter.next() {
                Some(_) => {
                    n = n + 1;
                },
                None => {
                    break ;
                },
            }
        }
        n
    }
}

impl Environment {
    /// An environment with these contents.
    pub fn new(hashtab: Option<Vec<Vec<Binding>>>, frame: Vec<Binding>) -> (env: Self)
        ensures
            env.hashtab == hashtab,
            env.frame == frame,
    {
        Environment { hashtab, frame }
    }

    /// A walk over all the bindings.
    pub fn iter(&self) -> (iter: EnvironmentIter<'_>)
        ensures
            iter.wf(),
            iter.remaining() == spec_bindings(*self),
    {
        EnvironmentIter::new(self)
    }
}

} // verus!
