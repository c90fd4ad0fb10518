//! A registry of user defined types (codes 128-254), each with a name and
//! whatever the caller keeps for it, such as the function that parses it.
use vstd::prelude::*;

verus! {

/// One registered type.
#[derive(Debug, Clone)]
pub struct TypeEntry<F> {
    /// the type code
    pub type_id: u8,
    /// the type's name
    pub name: String,
    /// what is kept for the type
    pub factory: F,
}

/// Why a registry refused a request.
#[derive(Debug, Clone, PartialEq, Eq)]
pub enum TypeRegistryError {
    /// the code is outside 128-254
    OutOfRange {
        /// the code
        type_id: u8,
    },
    /// the code is taken
    AlreadyRegistered {
        /// the code
        type_id: u8,
        /// name of the type that has it
        existing_name: String,
    },
    /// the code is not registered
    NotFound {
        /// the code
        type_id: u8,
    },
}

/// Whether a type with code `id` is in `s`.
pub open spec fn has_type<F>(s: Seq<TypeEntry<F>>, id: u8) -> bool {
    exists|i: int| 0 <= i < s.len() && #[trigger] s[i].type_id == id
}

/// Whether `i` is the first position of code `id` in `s`.
pub open spec fn is_first_type<F>(s: Seq<TypeEntry<F>>, id: u8, i: int) -> bool {
    &&& 0 <= i < s.len()
    &&& s[i].type_id == id
    &&& forall|j: int| 0 <= j < i ==> #[trigger] s[j].type_id != id
}

/// The first position of code `id` in `s`.
pub open spec fn first_type_index<F>(s: Seq<TypeEntry<F>>, id: u8) -> int {
    choose|i: int| is_first_type(s, id, i)
}

/// Whether no code occurs twice in `s`.
pub open spec fn codes_unique<F>(s: Seq<TypeEntry<F>>) -> bool {
    forall|i: int, j: int|
        0 <= i < s.len() && 0 <= j < s.len() && i != j ==> #[trigger] s[i].type_id != #[trigger] s[j].type_id
}

/// Whether every code in `s` lies in 128-254.
pub open spec fn codes_in_range<F>(s: Seq<TypeEntry<F>>) -> bool {
    forall|i: int| 0 <= i < s.len() ==> 128 <= #[trigger] s[i].type_id <= 254
}

/// Types by code, each code at most once and in 128-254.
#[derive(Debug)]
pub struct TypeRegistry<F> {
    /// the registered types, in registration order
    entries: Vec<TypeEntry<F>>,
}

impl<F> View for TypeRegistry<F> {
    type V = Seq<TypeEntry<F>>;

    /// The registered types, in registration order.
    closed spec fn view(&self) -> Seq<TypeEntry<F>> {
        self.entries@
    }
}

/// Removing an entry keeps the codes unique and in range.
proof fn lemma_remove_keeps_codes<F>(s: Seq<TypeEntry<F>>, k: int)
    requires
        codes_unique(s),
        codes_in_range(s),
        0 <= k < s.len(),
    ensures
        codes_unique(s.remove(k)),
        codes_in_range(s.remove(k)),
        !has_type(s.remove(k), s[k].type_id),
{
    let t = s.remove(k);
    assert forall|i: int, j: int|
        0 <= i < t.len() && 0 <= j < t.len() && i != j implies #[trigger] t[i].type_id
        != #[trigger] t[j].type_id by {
        let a = if i < k { i } else { i + 1 };
        let b = if j < k { j } else { j + 1 };
        assert(t[i] == s[a] && t[j] == s[b]);
    }
    assert forall|i: int| 0 <= i < t.len() implies 128 <= #[trigger] t[i].type_id <= 254 by {
        let a = if i < k { i } else { i + 1 };
        assert(t[i] == s[a]);
    }
    if has_type(t, s[k].type_id) {
        let i = choose|i: int| 0 <= i < t.len() && #[trigger] t[i].type_id == s[k].type_id;
        let a = if i < k { i } else { i + 1 };
        assert(t[i] == s[a]);
    }
}

/// Position of the first type with code `id`.
fn position<F>(s: &Vec<TypeEntry<F>>, id: u8) -> (r: Option<usize>)
    ensures
        r is None <==> !has_type(s@, id),
        r matches Some(i) ==> is_first_type(s@, id, i as int) && first_type_index(s@, id) == i,
{
    let mut i: usize = 0;
    while i < s.len()
        invariant
            i <= s@.len(),
            forall|j: int| 0 <= j < i ==> #[trigger] s@[j].type_id != id,
        decreases s@.len() - i,
    {
        if s[i].type_id == id {
            proof {
                assert(is_first_type(s@, id, i as int));
                let k = first_type_index(s@, id);
                assert(is_first_type(s@, id, k));
                if k < i {
                    assert(s@[k].type_id != id);
                }
                if k > i {
                    assert(s@[i as int].type_id != id);
                }
            }
            return Some(i);
        }
        i = i + 1;
    }
    None
}

impl<F> TypeRegistry<F> {
    /// Each code at most once, and in 128-254.
    #[verifier::type_invariant]
    spec fn inv(self) -> bool {
        codes_unique(self.entries@) && codes_in_range(self.entries@)
    }

    /// The registered types, in registration order.
    pub fn entries(&self) -> (r: &Vec<TypeEntry<F>>)
        ensures
            r@ == self@,
            codes_unique(self@),
            codes_in_range(self@),
    {
        proof {
            use_type_invariant(self);
        }
        &self.entries
    }

    /// An empty registry.
    pub fn new() -> (r: Self)
        ensures
            r@.len() == 0,
            codes_unique(r@),
    {
        TypeRegistry { entries: Vec::new() }
    }

    /// Registers a type: refused outside 128-254 and for a taken code.
    pub fn register(&mut self, type_id: u8, name: String, factory: F) -> (r: Result<(), TypeRegistryError>)
        ensures
            !(128 <= type_id <= 254) ==> r == Err::<(), TypeRegistryError>(
                TypeRegistryError::OutOfRange { type_id },
            ) && final(self)@ == old(self)@,
            128 <= type_id <= 254 && has_type(old(self)@, type_id) ==> (r matches Err(
                TypeRegistryError::AlreadyRegistered { type_id: t, existing_name },
            ) && t == type_id && existing_name@ == old(self)@[first_type_index(
                old(self)@,
                type_id,
            )].name@ && final(self)@ == old(self)@),
            128 <= type_id <= 254 && !has_type(old(self)@, type_id) ==> r is Ok
                && final(self)@ == old(self)@.push(
                TypeEntry { type_id, name, factory },
            ),
            codes_unique(final(self)@),
            codes_in_range(final(self)@),
    {
        proof {
            use_type_invariant(&*self);
        }
        if !(128 <= type_id && type_id <= 254) {
            return Err(TypeRegistryError::OutOfRange { type_id });
        }
        match position(&self.entries, type_id) {
            Some(i) => {
                let existing_name = self.entries[i].name.clone();
                return Err(TypeRegistryError::AlreadyRegistered { type_id, existing_name });
            },
            None => {},
        }
        let entry = TypeEntry { type_id, name, factory };
        proof {
            law_register_keeps_codes_unique(self.entries@, entry.type_id, entry.name, entry.factory);
            assert(self.entries@.push(entry) =~= self.entries@.push(
                TypeEntry { type_id: entry.type_id, name: entry.name, factory: entry.factory },
            ));
            assert forall|i: int| 0 <= i < self.entries@.push(entry).len() implies 128
                <= #[trigger] self.entries@.push(entry)[i].type_id <= 254 by {
                if i < self.entries@.len() {
                    assert(self.entries@.push(entry)[i] == self.entries@[i]);
                }
            }
        }
        let mut v: Vec<TypeEntry<F>> = Vec::new();
        std::mem::swap(&mut v, &mut self.entries);
        v.push(entry);
        self.entries = v;
        Ok(())
    }

    /// Removes the type with code `type_id`; refused when there is none.
    pub fn unregister(&mut self, type_id: u8) -> (r: Result<TypeEntry<F>, TypeRegistryError>)
        ensures
            !has_type(old(self)@, type_id) ==> r == Err::<TypeEntry<F>, TypeRegistryError>(
                TypeRegistryError::NotFound { type_id },
            ) && final(self)@ == old(self)@,
            has_type(old(self)@, type_id) ==> ({
                let k = first_type_index(old(self)@, type_id);
                r matches Ok(e) && e == old(self)@[k] && final(self)@
                    == old(self)@.remove(k)
            }),
            !has_type(final(self)@, type_id),
            codes_unique(final(self)@),
            codes_in_range(final(self)@),
    {
        proof {
            use_type_invariant(&*self);
        }
        match position(&self.entries, type_id) {
            Some(i) => {
                proof {
                    lemma_remove_keeps_codes(self.entries@, i as int);
                }
                let mut v: Vec<TypeEntry<F>> = Vec::new();
                std::mem::swap(&mut v, &mut self.entries);
                let e = v.remove(i);
                self.entries = v;
                Ok(e)
            },
            None => Err(TypeRegistryError::NotFound { type_id }),
        }
    }

    /// The type with code `type_id`.
    pub fn get(&self, type_id: u8) -> (r: Option<&TypeEntry<F>>)
        ensures
            r is None <==> !has_type(self@, type_id),
            r matches Some(e) ==> *e == self@[first_type_index(self@, type_id)],
    {
        match position(&self.entries, type_id) {
            Some(i) => Some(&self.entries[i]),
            None => None,
        }
    }

    /// Whether a type has code `type_id`.
    pub fn is_registered(&self, type_id: u8) -> (r: bool)
        ensures
            r == has_type(self@, type_id),
    {
        position(&self.entries, type_id).is_some()
    }

    /// The name of the type with code `type_id`.
    pub fn name_of(&self, type_id: u8) -> (r: Option<String>)
        ensures
            r is None <==> !has_type(self@, type_id),
            r matches Some(n) ==> n@ == self@[first_type_index(self@, type_id)].name@,
    {
        match position(&self.entries, type_id) {
            Some(i) => Some(self.entries[i].name.clone()),
            None => None,
        }
    }

    /// Code and name of each registered type, in registration order.
    pub fn registered_types(&self) -> (r: Vec<(u8, String)>)
        ensures
            r@.len() == self@.len(),
            forall|i: int|
                0 <= i < r@.len() ==> (#[trigger] r@[i]).0 == self@[i].type_id && r@[i].1@
                    == self@[i].name@,
    {
        let mut r: Vec<(u8, String)> = Vec::new();
        let mut i: usize = 0;
        while i < self.entries.len()
            invariant
                i <= self@.len(),
                r@.len() == i,
                forall|j: int|
                    0 <= j < i ==> (#[trigger] r@[j]).0 == self@[j].type_id && r@[j].1@
                        == self@[j].name@,
            decreases self@.len() - i,
        {
            r.push((self.entries[i].type_id, self.entries[i].name.clone()));
            i = i + 1;
        }
        r
    }

    /// Number of registered types.
    pub fn len(&self) -> (r: usize)
        ensures
            r == self@.len(),
    {
        self.entries.len()
    }

    /// Whether no type is registered.
    pub fn is_empty(&self) -> (r: bool)
        ensures
            r == (self@.len() == 0),
    {
        self.entries.len() == 0
    }

    /// Removes every type.
    pub fn clear(&mut self)
        ensures
            final(self)@.len() == 0,
            codes_unique(final(self)@),
    {
        self.entries = Vec::new();
    }
}

/// Registration keeps codes unique and in 128-254: what a registry built by
/// `new` and `register` holds has each code once.
pub proof fn law_register_keeps_codes_unique<F>(
    s: Seq<TypeEntry<F>>,
    type_id: u8,
    name: String,
    factory: F,
)
    requires
        codes_unique(s),
    ensures
        !has_type(s, type_id) ==> codes_unique(s.push(TypeEntry { type_id, name, factory })),
{
    if !has_type(s, type_id) {
        let t = s.push(TypeEntry { type_id, name, factory });
        assert forall|i: int, j: int|
            0 <= i < t.len() && 0 <= j < t.len() && i != j implies #[trigger] t[i].type_id
            != #[trigger] t[j].type_id by {
            if i == s.len() {
                assert(s[j].type_id != type_id);
            } else if j == s.len() {
                assert(s[i].type_id != type_id);
            }
        }
    }
}

/// After a successful registration the type is found under its code, with
/// its name.
pub proof fn law_registered_type_is_found<F>(s: Seq<TypeEntry<F>>, e: TypeEntry<F>)
    requires
        !has_type(s, e.type_id),
    ensures
        has_type(s.push(e), e.type_id),
        s.push(e)[first_type_index(s.push(e), e.type_id)] == e,
{
    let t = s.push(e);
    assert(t[s.len() as int].type_id == e.type_id);
    assert(is_first_type(t, e.type_id, s.len() as int));
    let k = first_type_index(t, e.type_id);
    assert(is_first_type(t, e.type_id, k));
    if k < s.len() {
        assert(s[k].type_id == e.type_id);
    }
}

} // verus!
