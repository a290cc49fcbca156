//! The heap: the objects that values refer to, and the borrows of host values that are in force.

use vstd::prelude::*;

use crate::error::{GError, GResult, TypeKey};
use crate::value::{
    Arr, Class, GFn, RData, RFn, Raw, Root, Slot, Str, Sym, Tab, ValType,
};

verus! {

/// What the heap knows of something that can be called.
#[derive(Clone, Copy, Debug, PartialEq, Eq, Structural)]
pub struct FnInfo {
    pub name: Option<Sym>,
    pub min_args: usize,
    pub max_args: Option<usize>,
}

/// A host value in the keep of the heap: its type, and a token by which the host finds it.
#[derive(Clone, Copy, Debug, PartialEq, Eq, Structural)]
pub struct HostCell {
    pub type_key: TypeKey,
    pub payload: u64,
}

/// Where a host value is kept.
#[derive(Clone, Copy, Debug, PartialEq, Eq, Structural)]
pub enum Place {
    Data(usize),
    Global(usize),
}

/// A borrow that is in force.
#[derive(Clone, Copy, Debug, PartialEq, Eq, Structural)]
pub struct Guard {
    pub place: Place,
    pub exclusive: bool,
}

/// The contents of a heap.
#[verifier::ext_equal]
pub struct Store {
    pub arrs: Seq<Seq<Slot>>,
    pub strs: Seq<Seq<char>>,
    pub tabs: Seq<Seq<(Slot, Slot)>>,
    pub rfns: Seq<FnInfo>,
    pub gfns: Seq<FnInfo>,
    pub classes: Seq<FnInfo>,
    pub datas: Seq<HostCell>,
    pub globals: Seq<HostCell>,
    pub guards: Seq<Guard>,
    pub syms: Seq<Seq<char>>,
    pub types: Seq<Seq<char>>,
}

/// The symbols that every heap knows, in the order of their numbers.
pub open spec fn stock_syms() -> Seq<Seq<char>> {
    seq!["<"@, "=="@, ">"@, "fresh"@, "copied"@, "infinite"@, "unknown"@]
}

/// `s` starts with all of `prefix`.
pub open spec fn begins<A>(s: Seq<A>, prefix: Seq<A>) -> bool {
    &&& prefix.len() <= s.len()
    &&& forall|i: int| 0 <= i < prefix.len() ==> s[i] == prefix[i]
}

/// A borrow of `place` is ruled out by a borrow in force: by any, if it is to be exclusive, else
/// by an exclusive one.
pub open spec fn clashes(guards: Seq<Guard>, place: Place, exclusive: bool) -> bool {
    exists|i: int|
        #![trigger guards[i]]
        0 <= i < guards.len() && guards[i].place == place && (exclusive || guards[i].exclusive)
}

/// The number of the first cell of type `key`, or the number of cells where there is none.
pub open spec fn first_of(cells: Seq<HostCell>, key: TypeKey) -> int
    decreases cells.len(),
{
    if cells.len() == 0 {
        0
    } else if first_of(cells.drop_last(), key) < cells.len() - 1 {
        first_of(cells.drop_last(), key)
    } else if cells.last().type_key == key {
        cells.len() - 1
    } else {
        cells.len() as int
    }
}

impl Store {
    /// A heap with nothing on it.
    pub open spec fn empty() -> Store {
        Store {
            arrs: seq![],
            strs: seq![],
            tabs: seq![],
            rfns: seq![],
            gfns: seq![],
            classes: seq![],
            datas: seq![],
            globals: seq![],
            guards: seq![],
            syms: stock_syms(),
            types: seq![],
        }
    }

    /// The heap with one more array.
    pub open spec fn with_arr(self, items: Seq<Slot>) -> Store {
        Store { arrs: self.arrs.push(items), ..self }
    }

    /// The heap with one more string.
    pub open spec fn with_str(self, chars: Seq<char>) -> Store {
        Store { strs: self.strs.push(chars), ..self }
    }

    /// The heap with one more table.
    pub open spec fn with_tab(self, entries: Seq<(Slot, Slot)>) -> Store {
        Store { tabs: self.tabs.push(entries), ..self }
    }

    /// The heap with one more host value on it.
    pub open spec fn with_data(self, cell: HostCell) -> Store {
        Store { datas: self.datas.push(cell), ..self }
    }

    /// The heap with one more borrow in force.
    pub open spec fn with_guard(self, place: Place, exclusive: bool) -> Store {
        Store { guards: self.guards.push(Guard { place, exclusive }), ..self }
    }

    /// The heap with no more than the first `mark` of its borrows in force.
    pub open spec fn released(self, mark: int) -> Store {
        if 0 <= mark < self.guards.len() {
            Store { guards: self.guards.take(mark), ..self }
        } else {
            self
        }
    }

    /// The handle that the next array will have.
    pub open spec fn next_arr(self) -> Root<Arr> {
        Root { id: self.arrs.len() as usize, kind: Arr }
    }

    /// The handle that the next string will have.
    pub open spec fn next_str(self) -> Root<Str> {
        Root { id: self.strs.len() as usize, kind: Str }
    }

    /// The handle that the next table will have.
    pub open spec fn next_tab(self) -> Root<Tab> {
        Root { id: self.tabs.len() as usize, kind: Tab }
    }

    /// The handle that the next host value will have.
    pub open spec fn next_data(self) -> Root<RData> {
        Root { id: self.datas.len() as usize, kind: RData }
    }

    /// The items of an array.
    pub open spec fn arr(self, root: Root<Arr>) -> GResult<Seq<Slot>> {
        if root.id < self.arrs.len() {
            Ok(self.arrs[root.id as int])
        } else {
            Err(GError::StaleHandle { received: ValType::Arr })
        }
    }

    /// The characters of a string.
    pub open spec fn str(self, root: Root<Str>) -> GResult<Seq<char>> {
        if root.id < self.strs.len() {
            Ok(self.strs[root.id as int])
        } else {
            Err(GError::StaleHandle { received: ValType::Str })
        }
    }

    /// The entries of a table.
    pub open spec fn tab(self, root: Root<Tab>) -> GResult<Seq<(Slot, Slot)>> {
        if root.id < self.tabs.len() {
            Ok(self.tabs[root.id as int])
        } else {
            Err(GError::StaleHandle { received: ValType::Tab })
        }
    }

    /// The name of a symbol, empty where the heap does not know it.
    pub open spec fn sym_name(self, sym: Sym) -> Seq<char> {
        if sym.id < self.syms.len() {
            self.syms[sym.id as int]
        } else {
            seq![]
        }
    }

    /// The name of a host type, empty where the heap does not know it.
    pub open spec fn name_of_type(self, key: TypeKey) -> Seq<char> {
        if key.id < self.types.len() {
            self.types[key.id as int]
        } else {
            seq![]
        }
    }

    /// Every object of `earlier` is on this heap too, under the same handle and unchanged, and
    /// nothing else has changed: this is `earlier` with objects added.
    #[verifier::opaque]
    pub open spec fn extends(self, earlier: Store) -> bool {
        &&& begins(self.arrs, earlier.arrs)
        &&& begins(self.strs, earlier.strs)
        &&& begins(self.tabs, earlier.tabs)
        &&& begins(self.datas, earlier.datas)
        &&& self.rfns == earlier.rfns
        &&& self.gfns == earlier.gfns
        &&& self.classes == earlier.classes
        &&& self.globals == earlier.globals
        &&& self.guards == earlier.guards
        &&& self.syms == earlier.syms
        &&& self.types == earlier.types
    }

    /// Every object can have a handle of its own.
    pub open spec fn addressable(self) -> bool {
        &&& self.arrs.len() <= usize::MAX
        &&& self.strs.len() <= usize::MAX
        &&& self.tabs.len() <= usize::MAX
        &&& self.datas.len() <= usize::MAX
    }

    /// Nothing has changed since `earlier` but that borrows have come into force.
    pub open spec fn only_borrowed(self, earlier: Store) -> bool {
        &&& begins(self.guards, earlier.guards)
        &&& self == (Store { guards: self.guards, ..earlier })
    }

    /// Borrowing a host value from the heap, as one of type `key`: the token by which the host
    /// finds it, or why it cannot be borrowed now.
    pub open spec fn borrow_data(self, raw: Raw<RData>, key: TypeKey, exclusive: bool) -> (
        Store,
        GResult<u64>,
    ) {
        if raw.id >= self.datas.len() {
            (self, Err(GError::StaleHandle { received: ValType::RData }))
        } else {
            let cell = self.datas[raw.id as int];
            let place = Place::Data(raw.id);
            if cell.type_key != key {
                (self, Err(GError::WrongData { expected: key, received: cell.type_key }))
            } else if clashes(self.guards, place, exclusive) {
                (self, Err(GError::DataInUse { type_key: key }))
            } else {
                (self.with_guard(place, exclusive), Ok(cell.payload))
            }
        }
    }

    /// Borrowing the global of type `key`: the token by which the host finds it, or why it cannot
    /// be borrowed now.
    pub open spec fn borrow_global(self, key: TypeKey, exclusive: bool) -> (Store, GResult<u64>) {
        let at = first_of(self.globals, key);
        let place = Place::Global(at as usize);
        if at >= self.globals.len() {
            (self, Err(GError::NoSuchGlobal { type_key: key }))
        } else if clashes(self.guards, place, exclusive) {
            (self, Err(GError::GlobalInUse { type_key: key }))
        } else {
            (self.with_guard(place, exclusive), Ok(self.globals[at].payload))
        }
    }
}

/// A heap that host code holds can give every object a handle of its own.
pub proof fn law_heap_is_addressable(heap: &Heap)
    ensures
        heap@.addressable(),
{
    assert(heap.arrs.len() == heap@.arrs.len());
    assert(heap.strs.len() == heap@.strs.len());
    assert(heap.tabs.len() == heap@.tabs.len());
    assert(heap.datas.len() == heap@.datas.len());
}

/// The heap of a running engine.
pub struct Heap {
    arrs: Vec<Vec<Slot>>,
    strs: Vec<Vec<char>>,
    tabs: Vec<Vec<(Slot, Slot)>>,
    rfns: Vec<FnInfo>,
    gfns: Vec<FnInfo>,
    classes: Vec<FnInfo>,
    datas: Vec<HostCell>,
    globals: Vec<HostCell>,
    guards: Vec<Guard>,
    syms: Vec<String>,
    types: Vec<String>,
}

impl View for Heap {
    type V = Store;

    closed spec fn view(&self) -> Store {
        Store {
            arrs: self.arrs@.map_values(|v: Vec<Slot>| v@),
            strs: self.strs@.map_values(|v: Vec<char>| v@),
            tabs: self.tabs@.map_values(|v: Vec<(Slot, Slot)>| v@),
            rfns: self.rfns@,
            gfns: self.gfns@,
            classes: self.classes@,
            datas: self.datas@,
            globals: self.globals@,
            guards: self.guards@,
            syms: self.syms@.map_values(|s: String| s@),
            types: self.types@.map_values(|s: String| s@),
        }
    }
}

impl Heap {
    /// Makes a heap with nothing on it.
    pub fn new() -> (heap: Heap)
        ensures
            heap@ == Store::empty(),
    {
        let mut syms: Vec<String> = Vec::new();
        syms.push("<".to_owned());
        syms.push("==".to_owned());
        syms.push(">".to_owned());
        syms.push("fresh".to_owned());
        syms.push("copied".to_owned());
        syms.push("infinite".to_owned());
        syms.push("unknown".to_owned());
        let heap = Heap {
            arrs: Vec::new(),
            strs: Vec::new(),
            tabs: Vec::new(),
            rfns: Vec::new(),
            gfns: Vec::new(),
            classes: Vec::new(),
            datas: Vec::new(),
            globals: Vec::new(),
            guards: Vec::new(),
            syms,
            types: Vec::new(),
        };
        assert(heap@ =~= Store::empty());
        heap
    }

    /// Puts an array on the heap.
    pub fn alloc_arr(&mut self, items: Vec<Slot>) -> (root: Root<Arr>)
        ensures
            root == old(self)@.next_arr(),
            root.id == old(self)@.arrs.len(),
            final(self)@ == old(self)@.with_arr(items@),
    {
        let id: usize = self.arrs.len();
        self.arrs.push(items);
        assert(self@ =~= old(self)@.with_arr(items@));
        Root { id, kind: Arr }
    }

    /// Puts a string on the heap.
    pub fn alloc_str(&mut self, chars: Vec<char>) -> (root: Root<Str>)
        ensures
            root == old(self)@.next_str(),
            root.id == old(self)@.strs.len(),
            final(self)@ == old(self)@.with_str(chars@),
    {
        let id: usize = self.strs.len();
        self.strs.push(chars);
        assert(self@ =~= old(self)@.with_str(chars@));
        Root { id, kind: Str }
    }

    /// Puts a table on the heap.
    pub fn alloc_tab(&mut self, entries: Vec<(Slot, Slot)>) -> (root: Root<Tab>)
        ensures
            root == old(self)@.next_tab(),
            root.id == old(self)@.tabs.len(),
            final(self)@ == old(self)@.with_tab(entries@),
    {
        let id: usize = self.tabs.len();
        self.tabs.push(entries);
        assert(self@ =~= old(self)@.with_tab(entries@));
        Root { id, kind: Tab }
    }

    /// Puts a host value on the heap.
    pub fn alloc_data(&mut self, cell: HostCell) -> (root: Root<RData>)
        ensures
            root == old(self)@.next_data(),
            root.id == old(self)@.datas.len(),
            final(self)@ == old(self)@.with_data(cell),
    {
        let id: usize = self.datas.len();
        self.datas.push(cell);
        Root { id, kind: RData }
    }

    /// Makes a host function known.
    pub fn add_rfn(&mut self, info: FnInfo) -> (root: Root<RFn>)
        ensures
            root.id == old(self)@.rfns.len(),
            final(self)@ == (Store { rfns: old(self)@.rfns.push(info), ..old(self)@ }),
    {
        let id: usize = self.rfns.len();
        self.rfns.push(info);
        Root { id, kind: RFn }
    }

    /// Makes a scripted function known.
    pub fn add_gfn(&mut self, info: FnInfo) -> (root: Root<GFn>)
        ensures
            root.id == old(self)@.gfns.len(),
            final(self)@ == (Store { gfns: old(self)@.gfns.push(info), ..old(self)@ }),
    {
        let id: usize = self.gfns.len();
        self.gfns.push(info);
        Root { id, kind: GFn }
    }

    /// Makes a class known.
    pub fn add_class(&mut self, info: FnInfo) -> (root: Root<Class>)
        ensures
            root.id == old(self)@.classes.len(),
            final(self)@ == (Store { classes: old(self)@.classes.push(info), ..old(self)@ }),
    {
        let id: usize = self.classes.len();
        self.classes.push(info);
        Root { id, kind: Class }
    }

    /// Makes a global known.
    pub fn add_global(&mut self, cell: HostCell)
        ensures
            final(self)@ == (Store { globals: old(self)@.globals.push(cell), ..old(self)@ }),
    {
        self.globals.push(cell);
    }

    /// Makes a host type known, by its name.
    pub fn add_type(&mut self, name: &str) -> (key: TypeKey)
        ensures
            key.id == old(self)@.types.len(),
            final(self)@ == (Store { types: old(self)@.types.push(name@), ..old(self)@ }),
    {
        let id: usize = self.types.len();
        self.types.push(name.to_owned());
        assert(self@ =~= (Store { types: old(self)@.types.push(name@), ..old(self)@ }));
        TypeKey { id }
    }

    /// Makes a symbol known, by its name, unless there is no number left for it.
    pub fn add_sym(&mut self, name: &str) -> (r: Option<Sym>)
        ensures
            match r {
                Some(sym) => {
                    &&& sym.id == old(self)@.syms.len()
                    &&& final(self)@ == (Store { syms: old(self)@.syms.push(name@), ..old(self)@ })
                },
                None => old(self)@.syms.len() > u32::MAX && final(self)@ == old(self)@,
            },
    {
        let id: usize = self.syms.len();
        if id > 0xffff_ffff {
            return None;
        }
        self.syms.push(name.to_owned());
        assert(self@ =~= (Store { syms: old(self)@.syms.push(name@), ..old(self)@ }));
        Some(Sym { id: id as u32 })
    }

    /// Looks up the items of an array.
    pub fn arr(&self, root: Root<Arr>) -> (r: GResult<&Vec<Slot>>)
        ensures
            match r {
                Ok(items) => self@.arr(root) == Ok::<Seq<Slot>, GError>(items@),
                Err(e) => self@.arr(root) == Err::<Seq<Slot>, GError>(e),
            },
    {
        if root.id < self.arrs.len() {
            Ok(&self.arrs[root.id])
        } else {
            Err(GError::StaleHandle { received: ValType::Arr })
        }
    }

    /// Looks up the characters of a string.
    pub fn str(&self, root: Root<Str>) -> (r: GResult<&Vec<char>>)
        ensures
            match r {
                Ok(chars) => self@.str(root) == Ok::<Seq<char>, GError>(chars@),
                Err(e) => self@.str(root) == Err::<Seq<char>, GError>(e),
            },
    {
        if root.id < self.strs.len() {
            Ok(&self.strs[root.id])
        } else {
            Err(GError::StaleHandle { received: ValType::Str })
        }
    }

    /// Looks up the entries of a table.
    pub fn tab(&self, root: Root<Tab>) -> (r: GResult<&Vec<(Slot, Slot)>>)
        ensures
            match r {
                Ok(entries) => self@.tab(root) == Ok::<Seq<(Slot, Slot)>, GError>(entries@),
                Err(e) => self@.tab(root) == Err::<Seq<(Slot, Slot)>, GError>(e),
            },
    {
        if root.id < self.tabs.len() {
            Ok(&self.tabs[root.id])
        } else {
            Err(GError::StaleHandle { received: ValType::Tab })
        }
    }

    /// Looks up what is known of a host function.
    pub fn rfn(&self, id: usize) -> (r: Option<FnInfo>)
        ensures
            r == (if id < self@.rfns.len() {
                Some(self@.rfns[id as int])
            } else {
                None
            }),
    {
        if id < self.rfns.len() {
            Some(self.rfns[id])
        } else {
            None
        }
    }

    /// Looks up what is known of a scripted function.
    pub fn gfn(&self, id: usize) -> (r: Option<FnInfo>)
        ensures
            r == (if id < self@.gfns.len() {
                Some(self@.gfns[id as int])
            } else {
                None
            }),
    {
        if id < self.gfns.len() {
            Some(self.gfns[id])
        } else {
            None
        }
    }

    /// Looks up what is known of a class.
    pub fn class(&self, id: usize) -> (r: Option<FnInfo>)
        ensures
            r == (if id < self@.classes.len() {
                Some(self@.classes[id as int])
            } else {
                None
            }),
    {
        if id < self.classes.len() {
            Some(self.classes[id])
        } else {
            None
        }
    }

    /// The name of a symbol, empty where the heap does not know it.
    pub fn sym_name(&self, sym: Sym) -> (name: &str)
        ensures
            name@ == self@.sym_name(sym),
    {
        let id: usize = sym.id as usize;
        if id < self.syms.len() {
            self.syms[id].as_str()
        } else {
            proof {
                reveal_strlit("");
            }
            let none = "";
            assert(none@ =~= Seq::<char>::empty());
            none
        }
    }

    /// The name of a host type, empty where the heap does not know it.
    pub fn name_of_type(&self, key: TypeKey) -> (name: &str)
        ensures
            name@ == self@.name_of_type(key),
    {
        if key.id < self.types.len() {
            self.types[key.id].as_str()
        } else {
            proof {
                reveal_strlit("");
            }
            let none = "";
            assert(none@ =~= Seq::<char>::empty());
            none
        }
    }

    /// How many borrows are in force.
    pub fn mark(&self) -> (n: usize)
        ensures
            n == self@.guards.len(),
    {
        self.guards.len()
    }

    /// Ends every borrow but the first `mark`.
    pub fn release(&mut self, mark: usize)
        ensures
            final(self)@ == old(self)@.released(mark as int),
    {
        if mark < self.guards.len() {
            self.guards.truncate(mark);
            assert(self@ =~= old(self)@.released(mark as int));
        }
    }

    /// Finds out whether a borrow is ruled out by one in force.
    fn clash(&self, place: Place, exclusive: bool) -> (b: bool)
        ensures
            b == clashes(self@.guards, place, exclusive),
    {
        let mut i: usize = 0;
        while i < self.guards.len()
            invariant
                i <= self.guards.len(),
                forall|j: int|
                    0 <= j < i ==> !(self.guards[j].place == place && (exclusive
                        || self.guards[j].exclusive)),
            decreases self.guards.len() - i,
        {
            let guard = self.guards[i];
            if guard.place == place && (exclusive || guard.exclusive) {
                assert(clashes(self@.guards, place, exclusive)) by {
                    assert(self@.guards[i as int] == guard);
                }
                return true;
            }
            i = i + 1;
        }
        false
    }

    /// Borrows a host value from the heap, as one of type `key`.
    pub fn borrow_data(&mut self, raw: Raw<RData>, key: TypeKey, exclusive: bool) -> (r: GResult<
        u64,
    >)
        ensures
            (final(self)@, r) == old(self)@.borrow_data(raw, key, exclusive),
    {
        if raw.id >= self.datas.len() {
            return Err(GError::StaleHandle { received: ValType::RData });
        }
        let cell = self.datas[raw.id];
        let place = Place::Data(raw.id);
        if cell.type_key != key {
            return Err(GError::WrongData { expected: key, received: cell.type_key });
        }
        if self.clash(place, exclusive) {
            return Err(GError::DataInUse { type_key: key });
        }
        self.guards.push(Guard { place, exclusive });
        Ok(cell.payload)
    }

    /// Finds the first global of type `key`.
    fn find_global(&self, key: TypeKey) -> (at: usize)
        ensures
            at == first_of(self@.globals, key),
            at <= self@.globals.len(),
    {
        let mut i: usize = 0;
        let mut at: usize = 0;
        while i < self.globals.len()
            invariant
                i <= self.globals.len(),
                at <= i,
                at == first_of(self.globals@.take(i as int), key),
            decreases self.globals.len() - i,
        {
            let ghost so_far = self.globals@.take(i + 1);
            assert(so_far.drop_last() =~= self.globals@.take(i as int));
            if at == i && self.globals[i].type_key != key {
                at = i + 1;
            }
            i = i + 1;
        }
        assert(self.globals@.take(i as int) =~= self.globals@);
        at
    }

    /// Borrows the global of type `key`.
    pub fn borrow_global(&mut self, key: TypeKey, exclusive: bool) -> (r: GResult<u64>)
        ensures
            (final(self)@, r) == old(self)@.borrow_global(key, exclusive),
    {
        let at: usize = self.find_global(key);
        let place = Place::Global(at);
        if at >= self.globals.len() {
            return Err(GError::NoSuchGlobal { type_key: key });
        }
        if self.clash(place, exclusive) {
            return Err(GError::GlobalInUse { type_key: key });
        }
        self.guards.push(Guard { place, exclusive });
        Ok(self.globals[at].payload)
    }
}

} // verus!
