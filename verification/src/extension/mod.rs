//! Extension registry: the codes and identities of user defined commands,
//! data units, system types, component types and analog types, with the
//! conflict checks that keep codes and identities unique.
pub mod registry;
pub mod version;
use crate::data_unit::{generic_parse_ok, GenericDataUnit};
use crate::error::{ExtensionError, ExtensionResult, ParseError};
use crate::protocol::DataUnitType;
use crate::text::{chars_of, push_char, push_decimal};
use crate::extension::version::{text_before, text_less};
use vstd::prelude::*;
use vstd::string::StringExecFns;

pub use version::MacroExtensionManager;

verus! {

/// Identity of an extension: the module that declares it, its type name
/// and its version.
#[derive(Debug, Clone)]
pub struct ExtensionId {
    /// module path of the declaring type
    pub module: String,
    /// name of the declaring type
    pub name: String,
    /// version of the declaring crate
    pub version: String,
}

impl ExtensionId {
    /// The identity as three texts; two identities are the same when these
    /// are.
    pub open spec fn key(&self) -> (Seq<char>, Seq<char>, Seq<char>) {
        (self.module@, self.name@, self.version@)
    }

    /// Creates an identity.
    pub fn new(module: &str, name: &str, version: &str) -> (r: Self)
        ensures
            r.key() == (module@, name@, version@),
    {
        ExtensionId {
            module: module.to_owned(),
            name: name.to_owned(),
            version: version.to_owned(),
        }
    }

    /// Whether both identities have the same module path, type name and
    /// version.
    pub fn same_as(&self, other: &ExtensionId) -> (r: bool)
        ensures
            r == (self.key() == other.key()),
    {
        self.module == other.module && self.name == other.name
            && self.version == other.version
    }

    /// A copy of the identity.
    pub fn copy(&self) -> (r: ExtensionId)
        ensures
            r.key() == self.key(),
    {
        ExtensionId {
            module: self.module.clone(),
            name: self.name.clone(),
            version: self.version.clone(),
        }
    }
}

/// A registered extension as the registry keeps it: its code, its
/// identity and its description.
#[derive(Debug, Clone)]
pub struct RegisteredExtension {
    /// the code (type flag) the extension uses
    pub code: u8,
    /// the extension's identity
    pub extension_id: ExtensionId,
    /// the extension's description
    pub description: String,
}

/// Whether an extension with `code` is in `s`.
pub open spec fn has_code(s: Seq<RegisteredExtension>, code: u8) -> bool {
    exists|i: int| 0 <= i < s.len() && #[trigger] s[i].code == code
}

/// Whether `i` is the first position in `s` of an extension with `code`.
pub open spec fn is_first_code(s: Seq<RegisteredExtension>, code: u8, i: int) -> bool {
    &&& 0 <= i < s.len()
    &&& s[i].code == code
    &&& forall|j: int| 0 <= j < i ==> #[trigger] s[j].code != code
}

/// The first position in `s` of an extension with `code`.
pub open spec fn first_code_index(s: Seq<RegisteredExtension>, code: u8) -> int {
    choose|i: int| is_first_code(s, code, i)
}

/// The description of the first extension with `code` in `s`.
pub open spec fn description_of(s: Seq<RegisteredExtension>, code: u8) -> Option<Seq<char>> {
    if has_code(s, code) {
        Some(s[first_code_index(s, code)].description@)
    } else {
        None
    }
}

/// Whether an identity with key `k` is in the identity table `ids`.
pub open spec fn has_id(ids: Seq<(ExtensionId, u8)>, k: (Seq<char>, Seq<char>, Seq<char>)) -> bool {
    exists|i: int| 0 <= i < ids.len() && #[trigger] ids[i].0.key() == k
}

/// Whether `i` is the first position of the identity `k` in `ids`.
pub open spec fn is_first_id(
    ids: Seq<(ExtensionId, u8)>,
    k: (Seq<char>, Seq<char>, Seq<char>),
    i: int,
) -> bool {
    &&& 0 <= i < ids.len()
    &&& ids[i].0.key() == k
    &&& forall|j: int| 0 <= j < i ==> #[trigger] ids[j].0.key() != k
}

/// The first position of the identity `k` in `ids`.
pub open spec fn first_id_index(ids: Seq<(ExtensionId, u8)>, k: (Seq<char>, Seq<char>, Seq<char>)) -> int {
    choose|i: int| is_first_id(ids, k, i)
}

/// The code registered for the identity `k`, at its first position.
pub open spec fn resolved_code(ids: Seq<(ExtensionId, u8)>, k: (Seq<char>, Seq<char>, Seq<char>)) -> Option<u8> {
    if has_id(ids, k) {
        Some(ids[first_id_index(ids, k)].1)
    } else {
        None
    }
}

/// The keys of the identities in `ids` whose code is `code`, in order.
pub open spec fn ids_with_code(ids: Seq<(ExtensionId, u8)>, code: u8) -> Seq<
    (Seq<char>, Seq<char>, Seq<char>),
>
    decreases ids.len(),
{
    if ids.len() == 0 {
        Seq::empty()
    } else {
        let p = ids_with_code(ids.drop_last(), code);
        if ids.last().1 == code {
            p.push(ids.last().0.key())
        } else {
            p
        }
    }
}

/// The keys of the identities in `ids` with the given module path and type
/// name, in order.
pub open spec fn ids_named(ids: Seq<(ExtensionId, u8)>, m: Seq<char>, t: Seq<char>) -> Seq<
    (Seq<char>, Seq<char>, Seq<char>),
>
    decreases ids.len(),
{
    if ids.len() == 0 {
        Seq::empty()
    } else {
        let p = ids_named(ids.drop_last(), m, t);
        if ids.last().0.module@ == m && ids.last().0.name@ == t {
            p.push(ids.last().0.key())
        } else {
            p
        }
    }
}

/// Whether the code `c` is used by an identity in `ids`.
pub open spec fn code_used(ids: Seq<(ExtensionId, u8)>, c: u8) -> bool {
    exists|i: int| 0 <= i < ids.len() && #[trigger] ids[i].1 == c
}

/// The codes among the `n` codes from 128 on that no identity in `ids`
/// uses, in increasing order.
pub open spec fn free_codes(ids: Seq<(ExtensionId, u8)>, n: nat) -> Seq<u8>
    decreases n,
{
    if n == 0 {
        Seq::empty()
    } else {
        let p = free_codes(ids, (n - 1) as nat);
        let c = (128 + n - 1) as u8;
        if code_used(ids, c) {
            p
        } else {
            p.push(c)
        }
    }
}

/// The outcome of registering `ext` in the list `s` with identity table
/// `ids`: refused when its code is in `s` or its identity in `ids`, and
/// otherwise appended to both.
pub open spec fn registration_ok(
    s: Seq<RegisteredExtension>,
    ids: Seq<(ExtensionId, u8)>,
    ext: RegisteredExtension,
    s2: Seq<RegisteredExtension>,
    ids2: Seq<(ExtensionId, u8)>,
    r: ExtensionResult<()>,
) -> bool {
    &&& r is Ok <==> (!has_code(s, ext.code) && !has_id(ids, ext.extension_id.key()))
    &&& r is Ok ==> s2 == s.push(ext) && ids2.len() == ids.len() + 1 && ids2.take(ids.len() as int)
        == ids && ids2.last().0.key() == ext.extension_id.key() && ids2.last().1 == ext.code
    &&& r is Err ==> s2 == s && ids2 == ids && r matches Err(ExtensionError::ValidationError { .. })
}

/// Statistics of a registry.
#[derive(Debug, Clone, Copy, PartialEq, Eq, Structural)]
pub struct ExtensionRegistryStats {
    /// number of extensions of all kinds
    pub total_extensions: usize,
    /// command extensions
    pub command_extensions: usize,
    /// data unit extensions
    pub data_unit_extensions: usize,
    /// system type extensions
    pub system_type_extensions: usize,
    /// component type extensions
    pub component_type_extensions: usize,
    /// analog type extensions
    pub analog_type_extensions: usize,
    /// registered identities
    pub used_codes: usize,
    /// codes of 128-254 not taken by an identity
    pub available_codes: usize,
}

/// Registry of extensions: one list per kind, each with unique codes, and
/// one table of identities shared by all kinds.
#[derive(Debug, Clone)]
pub struct MacroExtensionRegistry {
    /// command extensions
    pub command_extensions: Vec<RegisteredExtension>,
    /// data unit extensions
    pub data_unit_extensions: Vec<RegisteredExtension>,
    /// system type extensions
    pub system_type_extensions: Vec<RegisteredExtension>,
    /// component type extensions
    pub component_type_extensions: Vec<RegisteredExtension>,
    /// analog type extensions
    pub analog_type_extensions: Vec<RegisteredExtension>,
    /// identity of each registered extension with its code
    pub extension_id_registry: Vec<(ExtensionId, u8)>,
}

/// Position of the first extension with `code` in `s`.
fn find_code(s: &Vec<RegisteredExtension>, code: u8) -> (r: Option<usize>)
    ensures
        r is None <==> !has_code(s@, code),
        r matches Some(i) ==> is_first_code(s@, code, i as int) && first_code_index(s@, code)
            == i,
{
    let mut i: usize = 0;
    while i < s.len()
        invariant
            i <= s@.len(),
            forall|j: int| 0 <= j < i ==> #[trigger] s@[j].code != code,
        decreases s@.len() - i,
    {
        if s[i].code == code {
            proof {
                assert(is_first_code(s@, code, i as int));
                let k = first_code_index(s@, code);
                assert(is_first_code(s@, code, k));
                if k < i {
                    assert(s@[k].code != code);
                }
                if k > i {
                    assert(s@[i as int].code != code);
                }
            }
            return Some(i);
        }
        i = i + 1;
    }
    None
}

/// Position of the first identity `k` in `ids`.
fn find_id(ids: &Vec<(ExtensionId, u8)>, id: &ExtensionId) -> (r: Option<usize>)
    ensures
        r is None <==> !has_id(ids@, id.key()),
        r matches Some(i) ==> is_first_id(ids@, id.key(), i as int) && first_id_index(
            ids@,
            id.key(),
        ) == i,
{
    let mut i: usize = 0;
    while i < ids.len()
        invariant
            i <= ids@.len(),
            forall|j: int| 0 <= j < i ==> #[trigger] ids@[j].0.key() != id.key(),
        decreases ids@.len() - i,
    {
        if ids[i].0.same_as(id) {
            proof {
                assert(is_first_id(ids@, id.key(), i as int));
                let k = first_id_index(ids@, id.key());
                assert(is_first_id(ids@, id.key(), k));
                if k < i {
                    assert(ids@[k].0.key() != id.key());
                }
                if k > i {
                    assert(ids@[i as int].0.key() != id.key());
                }
            }
            return Some(i);
        }
        i = i + 1;
    }
    None
}

/// Registers `ext` in `list` and its identity in `ids`, unless its code is
/// in `list` or its identity in `ids`.
fn register_into(
    list: &mut Vec<RegisteredExtension>,
    ids: &mut Vec<(ExtensionId, u8)>,
    ext: RegisteredExtension,
    kind: &str,
) -> (r: ExtensionResult<()>)
    ensures
        registration_ok(old(list)@, old(ids)@, ext, final(list)@, final(ids)@, r),
{
    if find_code(list, ext.code).is_some() {
        let mut reason = kind.to_owned();
        reason.append(" ");
        push_decimal(&mut reason, ext.code as u64);
        reason.append(" 已被注册");
        return Err(ExtensionError::ValidationError { reason });
    }
    match find_id(ids, &ext.extension_id) {
        Some(i) => {
            let mut reason = "扩展ID ".to_owned();
            reason.append(ext.extension_id.module.as_str());
            reason.append("::");
            reason.append(ext.extension_id.name.as_str());
            reason.append(" 已被代码 ");
            push_decimal(&mut reason, ids[i].1 as u64);
            reason.append(" 注册");
            return Err(ExtensionError::ValidationError { reason });
        },
        None => {},
    }
    let id = ext.extension_id.copy();
    let code = ext.code;
    ids.push((id, code));
    list.push(ext);
    proof {
        assert(final(ids)@.take(old(ids)@.len() as int) =~= old(ids)@);
    }
    Ok(())
}

/// The first extension with `code` in `s`.
fn find_in(s: &Vec<RegisteredExtension>, code: u8) -> (r: Option<&RegisteredExtension>)
    ensures
        r is None <==> !has_code(s@, code),
        r matches Some(e) ==> *e == s@[first_code_index(s@, code)],
{
    match find_code(s, code) {
        Some(i) => Some(&s[i]),
        None => None,
    }
}

impl MacroExtensionRegistry {
    /// An empty registry.
    pub fn new() -> (r: Self)
        ensures
            r.command_extensions@.len() == 0,
            r.data_unit_extensions@.len() == 0,
            r.system_type_extensions@.len() == 0,
            r.component_type_extensions@.len() == 0,
            r.analog_type_extensions@.len() == 0,
            r.extension_id_registry@.len() == 0,
    {
        MacroExtensionRegistry {
            command_extensions: Vec::new(),
            data_unit_extensions: Vec::new(),
            system_type_extensions: Vec::new(),
            component_type_extensions: Vec::new(),
            analog_type_extensions: Vec::new(),
            extension_id_registry: Vec::new(),
        }
    }

    /// Registers a command extension; refused when its code or its identity
    /// is taken.
    pub fn register_command(&mut self, extension: RegisteredExtension) -> (r: ExtensionResult<()>)
        ensures
            registration_ok(
                old(self).command_extensions@,
                old(self).extension_id_registry@,
                extension,
                final(self).command_extensions@,
                final(self).extension_id_registry@,
                r,
            ),
            final(self).data_unit_extensions == old(self).data_unit_extensions,
            final(self).system_type_extensions == old(self).system_type_extensions,
            final(self).component_type_extensions == old(self).component_type_extensions,
            final(self).analog_type_extensions == old(self).analog_type_extensions,
    {
        register_into(&mut self.command_extensions, &mut self.extension_id_registry, extension, "命令代码")
    }

    /// Registers a data unit extension; refused when its type flag or its
    /// identity is taken.
    pub fn register_data_unit(&mut self, extension: RegisteredExtension) -> (r: ExtensionResult<()>)
        ensures
            registration_ok(
                old(self).data_unit_extensions@,
                old(self).extension_id_registry@,
                extension,
                final(self).data_unit_extensions@,
                final(self).extension_id_registry@,
                r,
            ),
            final(self).command_extensions == old(self).command_extensions,
            final(self).system_type_extensions == old(self).system_type_extensions,
            final(self).component_type_extensions == old(self).component_type_extensions,
            final(self).analog_type_extensions == old(self).analog_type_extensions,
    {
        register_into(
            &mut self.data_unit_extensions,
            &mut self.extension_id_registry,
            extension,
            "数据单元类型标志",
        )
    }

    /// Registers a system type extension; refused when its code or its
    /// identity is taken.
    pub fn register_system_type(&mut self, extension: RegisteredExtension) -> (r: ExtensionResult<()>)
        ensures
            registration_ok(
                old(self).system_type_extensions@,
                old(self).extension_id_registry@,
                extension,
                final(self).system_type_extensions@,
                final(self).extension_id_registry@,
                r,
            ),
            final(self).command_extensions == old(self).command_extensions,
            final(self).data_unit_extensions == old(self).data_unit_extensions,
            final(self).component_type_extensions == old(self).component_type_extensions,
            final(self).analog_type_extensions == old(self).analog_type_extensions,
    {
        register_into(
            &mut self.system_type_extensions,
            &mut self.extension_id_registry,
            extension,
            "系统类型代码",
        )
    }

    /// Registers a component type extension; refused when its code or its
    /// identity is taken.
    pub fn register_component_type(&mut self, extension: RegisteredExtension) -> (r: ExtensionResult<()>)
        ensures
            registration_ok(
                old(self).component_type_extensions@,
                old(self).extension_id_registry@,
                extension,
                final(self).component_type_extensions@,
                final(self).extension_id_registry@,
                r,
            ),
            final(self).command_extensions == old(self).command_extensions,
            final(self).data_unit_extensions == old(self).data_unit_extensions,
            final(self).system_type_extensions == old(self).system_type_extensions,
            final(self).analog_type_extensions == old(self).analog_type_extensions,
    {
        register_into(
            &mut self.component_type_extensions,
            &mut self.extension_id_registry,
            extension,
            "部件类型代码",
        )
    }

    /// Registers an analog type extension; refused when its code or its
    /// identity is taken.
    pub fn register_analog_type(&mut self, extension: RegisteredExtension) -> (r: ExtensionResult<()>)
        ensures
            registration_ok(
                old(self).analog_type_extensions@,
                old(self).extension_id_registry@,
                extension,
                final(self).analog_type_extensions@,
                final(self).extension_id_registry@,
                r,
            ),
            final(self).command_extensions == old(self).command_extensions,
            final(self).data_unit_extensions == old(self).data_unit_extensions,
            final(self).system_type_extensions == old(self).system_type_extensions,
            final(self).component_type_extensions == old(self).component_type_extensions,
    {
        register_into(
            &mut self.analog_type_extensions,
            &mut self.extension_id_registry,
            extension,
            "模拟量类型代码",
        )
    }

    /// The command extension with `code`.
    pub fn find_command(&self, code: u8) -> (r: Option<&RegisteredExtension>)
        ensures
            r is None <==> !has_code(self.command_extensions@, code),
            r matches Some(e) ==> *e == self.command_extensions@[first_code_index(
                self.command_extensions@,
                code,
            )],
    {
        find_in(&self.command_extensions, code)
    }

    /// The data unit extension with type flag `type_flag`.
    pub fn find_data_unit(&self, type_flag: u8) -> (r: Option<&RegisteredExtension>)
        ensures
            r is None <==> !has_code(self.data_unit_extensions@, type_flag),
            r matches Some(e) ==> *e == self.data_unit_extensions@[first_code_index(
                self.data_unit_extensions@,
                type_flag,
            )],
    {
        find_in(&self.data_unit_extensions, type_flag)
    }

    /// The system type extension with `code`.
    pub fn find_system_type(&self, code: u8) -> (r: Option<&RegisteredExtension>)
        ensures
            r is None <==> !has_code(self.system_type_extensions@, code),
            r matches Some(e) ==> *e == self.system_type_extensions@[first_code_index(
                self.system_type_extensions@,
                code,
            )],
    {
        find_in(&self.system_type_extensions, code)
    }

    /// The component type extension with `code`.
    pub fn find_component_type(&self, code: u8) -> (r: Option<&RegisteredExtension>)
        ensures
            r is None <==> !has_code(self.component_type_extensions@, code),
            r matches Some(e) ==> *e == self.component_type_extensions@[first_code_index(
                self.component_type_extensions@,
                code,
            )],
    {
        find_in(&self.component_type_extensions, code)
    }

    /// The analog type extension with `code`.
    pub fn find_analog_type(&self, code: u8) -> (r: Option<&RegisteredExtension>)
        ensures
            r is None <==> !has_code(self.analog_type_extensions@, code),
            r matches Some(e) ==> *e == self.analog_type_extensions@[first_code_index(
                self.analog_type_extensions@,
                code,
            )],
    {
        find_in(&self.analog_type_extensions, code)
    }

    /// The code registered for an identity.
    pub fn resolve_extension_id_conflict(&self, extension_id: &ExtensionId) -> (r: Option<u8>)
        ensures
            r is None <==> !has_id(self.extension_id_registry@, extension_id.key()),
            r == resolved_code(self.extension_id_registry@, extension_id.key()),
    {
        match find_id(&self.extension_id_registry, extension_id) {
            Some(i) => Some(self.extension_id_registry[i].1),
            None => None,
        }
    }

    /// The registered identities.
    pub fn list_extension_ids(&self) -> (r: Vec<ExtensionId>)
        ensures
            r@.len() == self.extension_id_registry@.len(),
            forall|i: int|
                0 <= i < r@.len() ==> #[trigger] r@[i].key()
                    == self.extension_id_registry@[i].0.key(),
    {
        let ids = &self.extension_id_registry;
        let mut r: Vec<ExtensionId> = Vec::new();
        let mut i: usize = 0;
        while i < ids.len()
            invariant
                i <= ids@.len(),
                r@.len() == i,
                forall|j: int| 0 <= j < i ==> #[trigger] r@[j].key() == ids@[j].0.key(),
            decreases ids@.len() - i,
        {
            r.push(ids[i].0.copy());
            i = i + 1;
        }
        r
    }

    /// Whether an identity is registered.
    pub fn is_extension_id_registered(&self, extension_id: &ExtensionId) -> (r: bool)
        ensures
            r == has_id(self.extension_id_registry@, extension_id.key()),
    {
        find_id(&self.extension_id_registry, extension_id).is_some()
    }

    /// The registered identities with the given module path and type name.
    pub fn find_extension_by_name(&self, module: &str, name: &str) -> (r: Vec<ExtensionId>)
        ensures
            r@.len() == ids_named(self.extension_id_registry@, module@, name@).len(),
            forall|i: int|
                0 <= i < r@.len() ==> #[trigger] r@[i].key() == ids_named(
                    self.extension_id_registry@,
                    module@,
                    name@,
                )[i],
    {
        let ids = &self.extension_id_registry;
        let mut r: Vec<ExtensionId> = Vec::new();
        let mut i: usize = 0;
        while i < ids.len()
            invariant
                i <= ids@.len(),
                r@.len() == ids_named(ids@.take(i as int), module@, name@).len(),
                forall|j: int|
                    0 <= j < r@.len() ==> #[trigger] r@[j].key() == ids_named(
                        ids@.take(i as int),
                        module@,
                        name@,
                    )[j],
            decreases ids@.len() - i,
        {
            proof {
                assert(ids@.take(i + 1).drop_last() =~= ids@.take(i as int));
            }
            let m = ids[i].0.module == module.to_owned();
            let t = ids[i].0.name == name.to_owned();
            if m && t {
                r.push(ids[i].0.copy());
            }
            i = i + 1;
        }
        proof {
            assert(ids@.take(ids@.len() as int) =~= ids@);
        }
        r
    }

    /// The code registered for the identity with the given module path,
    /// type name and version.
    pub fn find_extension_by_version(&self, module: &str, name: &str, version: &str) -> (r: Option<u8>)
        ensures
            r is Some <==> has_id(self.extension_id_registry@, (module@, name@, version@)),
            r matches Some(c) ==> exists|i: int|
                0 <= i < self.extension_id_registry@.len()
                    && #[trigger] self.extension_id_registry@[i].0.key() == (module@, name@, version@)
                    && self.extension_id_registry@[i].1 == c,
    {
        let id = ExtensionId::new(module, name, version);
        match find_id(&self.extension_id_registry, &id) {
            Some(i) => Some(self.extension_id_registry[i].1),
            None => None,
        }
    }

    /// The identities registered with `code`.
    pub fn check_code_conflicts(&self, code: u8) -> (r: Vec<ExtensionId>)
        ensures
            r@.len() == ids_with_code(self.extension_id_registry@, code).len(),
            forall|i: int|
                0 <= i < r@.len() ==> #[trigger] r@[i].key() == ids_with_code(
                    self.extension_id_registry@,
                    code,
                )[i],
    {
        let ids = &self.extension_id_registry;
        let mut r: Vec<ExtensionId> = Vec::new();
        let mut i: usize = 0;
        while i < ids.len()
            invariant
                i <= ids@.len(),
                r@.len() == ids_with_code(ids@.take(i as int), code).len(),
                forall|j: int|
                    0 <= j < r@.len() ==> #[trigger] r@[j].key() == ids_with_code(
                        ids@.take(i as int),
                        code,
                    )[j],
            decreases ids@.len() - i,
        {
            proof {
                assert(ids@.take(i + 1).drop_last() =~= ids@.take(i as int));
            }
            if ids[i].1 == code {
                r.push(ids[i].0.copy());
            }
            i = i + 1;
        }
        proof {
            assert(ids@.take(ids@.len() as int) =~= ids@);
        }
        r
    }

    /// Empties the registry.
    pub fn clear_all(&mut self) -> (r: ExtensionResult<()>)
        ensures
            r is Ok,
            final(self).command_extensions@.len() == 0,
            final(self).data_unit_extensions@.len() == 0,
            final(self).system_type_extensions@.len() == 0,
            final(self).component_type_extensions@.len() == 0,
            final(self).analog_type_extensions@.len() == 0,
            final(self).extension_id_registry@.len() == 0,
    {
        self.extension_id_registry = Vec::new();
        self.command_extensions = Vec::new();
        self.data_unit_extensions = Vec::new();
        self.system_type_extensions = Vec::new();
        self.component_type_extensions = Vec::new();
        self.analog_type_extensions = Vec::new();
        Ok(())
    }
}

impl Default for MacroExtensionRegistry {
    fn default() -> (r: Self)
        ensures
            r.command_extensions@.len() == 0,
            r.data_unit_extensions@.len() == 0,
            r.system_type_extensions@.len() == 0,
            r.component_type_extensions@.len() == 0,
            r.analog_type_extensions@.len() == 0,
            r.extension_id_registry@.len() == 0,
    {
        Self::new()
    }
}

/// The kind label and description of the extension with `code`, looked up
/// in the command, data unit, system type, component type and analog type
/// lists in that order.
pub open spec fn kind_of(reg: MacroExtensionRegistry, code: u8) -> Option<(Seq<char>, Seq<char>)> {
    if has_code(reg.command_extensions@, code) {
        Some(("Command"@, description_of(reg.command_extensions@, code).unwrap()))
    } else if has_code(reg.data_unit_extensions@, code) {
        Some(("DataUnit"@, description_of(reg.data_unit_extensions@, code).unwrap()))
    } else if has_code(reg.system_type_extensions@, code) {
        Some(("SystemType"@, description_of(reg.system_type_extensions@, code).unwrap()))
    } else if has_code(reg.component_type_extensions@, code) {
        Some(("ComponentType"@, description_of(reg.component_type_extensions@, code).unwrap()))
    } else if has_code(reg.analog_type_extensions@, code) {
        Some(("AnalogType"@, description_of(reg.analog_type_extensions@, code).unwrap()))
    } else {
        None
    }
}

/// What the registry reports of one extension.
#[derive(Debug, Clone)]
pub struct ExtensionRegistryInfo {
    /// the extension's identity
    pub extension_id: ExtensionId,
    /// its code
    pub code: u8,
    /// its kind: Command, DataUnit, SystemType, ComponentType or AnalogType
    pub extension_type: String,
    /// its description
    pub description: String,
    /// when the information was taken, in seconds since the Unix epoch
    pub registered_at: u64,
}

/// Whether `c` is used by an identity in `ids`.
fn code_in_use(ids: &Vec<(ExtensionId, u8)>, c: u8) -> (r: bool)
    ensures
        r == code_used(ids@, c),
{
    let mut i: usize = 0;
    while i < ids.len()
        invariant
            i <= ids@.len(),
            forall|j: int| 0 <= j < i ==> #[trigger] ids@[j].1 != c,
        decreases ids@.len() - i,
    {
        if ids[i].1 == c {
            return true;
        }
        i = i + 1;
    }
    false
}

/// The free codes below `k` come first among the free codes below `m`.
proof fn lemma_free_prefix(ids: Seq<(ExtensionId, u8)>, k: nat, m: nat)
    requires
        k <= m,
    ensures
        free_codes(ids, k).len() <= free_codes(ids, m).len(),
        free_codes(ids, m).take(free_codes(ids, k).len() as int) == free_codes(ids, k),
    decreases m,
{
    if k < m {
        lemma_free_prefix(ids, k, (m - 1) as nat);
        let p = free_codes(ids, (m - 1) as nat);
        let q = free_codes(ids, k);
        assert(free_codes(ids, m).take(q.len() as int) =~= p.take(q.len() as int));
    } else {
        assert(free_codes(ids, m).take(free_codes(ids, k).len() as int) =~= free_codes(ids, k));
    }
}

/// Each step adds at most one free code.
proof fn lemma_free_step(ids: Seq<(ExtensionId, u8)>, n: nat)
    ensures
        free_codes(ids, n + 1).len() <= free_codes(ids, n).len() + 1,
{
}

impl MacroExtensionRegistry {
    /// What the registry holds of a registered identity: its code, and the
    /// kind and description of the extension with that code; the time is
    /// the system clock's.
    pub fn get_extension_info(&self, extension_id: &ExtensionId) -> (r: Option<ExtensionRegistryInfo>)
        ensures
            match resolved_code(self.extension_id_registry@, extension_id.key()) {
                None => r is None,
                Some(c) => match kind_of(*self, c) {
                    None => r is None,
                    Some((label, desc)) => r matches Some(info) && info.code == c
                        && info.extension_id.key() == extension_id.key() && info.extension_type@
                        == label && info.description@ == desc,
                },
            },
    {
        let code = match self.resolve_extension_id_conflict(extension_id) {
            Some(c) => c,
            None => {
                return None;
            },
        };
        let (label, found) = if let Some(e) = self.find_command(code) {
            ("Command", Some(e))
        } else if let Some(e) = self.find_data_unit(code) {
            ("DataUnit", Some(e))
        } else if let Some(e) = self.find_system_type(code) {
            ("SystemType", Some(e))
        } else if let Some(e) = self.find_component_type(code) {
            ("ComponentType", Some(e))
        } else if let Some(e) = self.find_analog_type(code) {
            ("AnalogType", Some(e))
        } else {
            ("", None)
        };
        match found {
            Some(e) => {
                proof {
                    reveal_strlit("Command");
                    reveal_strlit("DataUnit");
                    reveal_strlit("SystemType");
                    reveal_strlit("ComponentType");
                    reveal_strlit("AnalogType");
                }
                Some(
                    ExtensionRegistryInfo {
                        extension_id: extension_id.copy(),
                        code,
                        extension_type: label.to_owned(),
                        description: e.description.clone(),
                        registered_at: crate::frame::timestamp::system_unix_seconds(),
                    },
                )
            },
            None => None,
        }
    }

    /// Up to `count` free codes of 128-254 in increasing order (at least one
    /// when any is free, also for a count of zero).
    pub fn suggest_available_codes(&self, count: usize) -> (r: Vec<u8>)
        ensures
            ({
                let f = free_codes(self.extension_id_registry@, 127);
                let target = if count == 0 {
                    1
                } else {
                    count as int
                };
                &&& r@.len() == (if target <= f.len() {
                    target
                } else {
                    f.len() as int
                })
                &&& r@ == f.take(r@.len() as int)
            }),
    {
        let ids = &self.extension_id_registry;
        let ghost target: int = if count == 0 {
            1
        } else {
            count as int
        };
        let mut r: Vec<u8> = Vec::new();
        let mut n: u8 = 0;
        while n < 127
            invariant_except_break
                r@.len() < target,
            invariant
                n <= 127,
                r@ == free_codes(ids@, n as nat),
                target == (if count == 0 {
                    1
                } else {
                    count as int
                }),
            ensures
                n == 127 && r@.len() < target || r@.len() == target,
            decreases 127 - n,
        {
            let code: u8 = 128 + n;
            proof {
                lemma_free_step(ids@, n as nat);
            }
            if !code_in_use(ids, code) {
                r.push(code);
                n = n + 1;
                if r.len() >= count {
                    break;
                }
            } else {
                n = n + 1;
            }
        }
        proof {
            lemma_free_prefix(ids@, n as nat, 127);
        }
        r
    }

    /// Counts of the registry: extensions per kind and in all, identities,
    /// and codes of 128-254 left (127 less the identities).
    pub fn get_registry_stats(&self) -> (r: ExtensionRegistryStats)
        requires
            self.extension_id_registry@.len() <= 127,
            self.command_extensions@.len() + self.data_unit_extensions@.len()
                + self.system_type_extensions@.len() + self.component_type_extensions@.len()
                + self.analog_type_extensions@.len() <= usize::MAX,
        ensures
            r.command_extensions == self.command_extensions@.len(),
            r.data_unit_extensions == self.data_unit_extensions@.len(),
            r.system_type_extensions == self.system_type_extensions@.len(),
            r.component_type_extensions == self.component_type_extensions@.len(),
            r.analog_type_extensions == self.analog_type_extensions@.len(),
            r.total_extensions == self.command_extensions@.len() + self.data_unit_extensions@.len()
                + self.system_type_extensions@.len() + self.component_type_extensions@.len()
                + self.analog_type_extensions@.len(),
            r.used_codes == self.extension_id_registry@.len(),
            r.available_codes == 127 - self.extension_id_registry@.len(),
    {
        let c = self.command_extensions.len();
        let d = self.data_unit_extensions.len();
        let s = self.system_type_extensions.len();
        let p = self.component_type_extensions.len();
        let a = self.analog_type_extensions.len();
        let used = self.extension_id_registry.len();
        ExtensionRegistryStats {
            total_extensions: c + d + s + p + a,
            command_extensions: c,
            data_unit_extensions: d,
            system_type_extensions: s,
            component_type_extensions: p,
            analog_type_extensions: a,
            used_codes: used,
            available_codes: 127 - used,
        }
    }
}

/// The full name of an identity: its module path, `::` and its type name.
pub open spec fn full_name_text(k: (Seq<char>, Seq<char>, Seq<char>)) -> Seq<char> {
    k.0 + seq![':', ':'] + k.1
}

impl ExtensionId {
    /// The full name: module path, `::` and type name.
    pub fn full_name(&self) -> (r: String)
        ensures
            r@ == full_name_text(self.key()),
    {
        let mut s = self.module.clone();
        push_char(&mut s, ':');
        push_char(&mut s, ':');
        s.append(self.name.as_str());
        s
    }
}

/// Whether the registry can report on identity `k`: it is registered and an
/// extension holds its code.
pub open spec fn has_info(reg: MacroExtensionRegistry, k: (Seq<char>, Seq<char>, Seq<char>)) -> bool {
    match resolved_code(reg.extension_id_registry@, k) {
        Some(c) => kind_of(reg, c) is Some,
        None => false,
    }
}

/// Whether `info` is what the registry reports of its identity.
pub open spec fn info_fits(reg: MacroExtensionRegistry, info: ExtensionRegistryInfo) -> bool {
    &&& resolved_code(reg.extension_id_registry@, info.extension_id.key()) == Some(info.code)
    &&& kind_of(reg, info.code) == Some((info.extension_type@, info.description@))
}

/// The identities among the first `n` registered ones that the registry can
/// report on, in registration order.
pub open spec fn keys_with_info(reg: MacroExtensionRegistry, n: int) -> Seq<
    (Seq<char>, Seq<char>, Seq<char>),
>
    decreases n,
{
    if n <= 0 {
        Seq::empty()
    } else {
        let p = keys_with_info(reg, n - 1);
        let k = reg.extension_id_registry@[n - 1].0.key();
        if has_info(reg, k) {
            p.push(k)
        } else {
            p
        }
    }
}

/// The identities of a list of reports.
pub open spec fn info_keys(s: Seq<ExtensionRegistryInfo>) -> Seq<(Seq<char>, Seq<char>, Seq<char>)> {
    s.map_values(|x: ExtensionRegistryInfo| x.extension_id.key())
}

/// Whether the reports are in order of full name.
pub open spec fn sorted_by_full_name(s: Seq<ExtensionRegistryInfo>) -> bool {
    forall|a: int, b: int|
        0 <= a < b < s.len() ==> !text_less(
            full_name_text(#[trigger] s[b].extension_id.key()),
            full_name_text(#[trigger] s[a].extension_id.key()),
        )
}

/// A copy of a report.
fn copy_info(x: &ExtensionRegistryInfo) -> (r: ExtensionRegistryInfo)
    ensures
        r.extension_id.key() == x.extension_id.key(),
        r.code == x.code,
        r.extension_type@ == x.extension_type@,
        r.description@ == x.description@,
        r.registered_at == x.registered_at,
{
    ExtensionRegistryInfo {
        extension_id: x.extension_id.copy(),
        code: x.code,
        extension_type: x.extension_type.clone(),
        description: x.description.clone(),
        registered_at: x.registered_at,
    }
}

/// No text comes before itself.
proof fn lemma_text_less_irreflexive(a: Seq<char>)
    ensures
        !text_less(a, a),
    decreases a.len(),
{
    if a.len() > 0 {
        lemma_text_less_irreflexive(a.skip(1));
    }
}

/// Character order of texts is transitive.
proof fn lemma_text_less_transitive(a: Seq<char>, b: Seq<char>, c: Seq<char>)
    requires
        text_less(a, b),
        text_less(b, c),
    ensures
        text_less(a, c),
    decreases a.len(),
{
    if a.len() > 0 && b.len() > 0 && c.len() > 0 && a[0] == b[0] && b[0] == c[0] {
        lemma_text_less_transitive(a.skip(1), b.skip(1), c.skip(1));
    }
}

impl MacroExtensionRegistry {
    /// Reports on every registered identity the registry can report on, in
    /// order of full name.
    pub fn list_all_extensions(&self) -> (r: Vec<ExtensionRegistryInfo>)
        ensures
            forall|i: int| 0 <= i < r@.len() ==> info_fits(*self, #[trigger] r@[i]),
            info_keys(r@).to_multiset() == keys_with_info(
                *self,
                self.extension_id_registry@.len() as int,
            ).to_multiset(),
            sorted_by_full_name(r@),
    {
        let ids = self.list_extension_ids();
        let mut found: Vec<ExtensionRegistryInfo> = Vec::new();
        let mut i: usize = 0;
        while i < ids.len()
            invariant
                i <= ids@.len(),
                ids@.len() == self.extension_id_registry@.len(),
                forall|j: int|
                    0 <= j < ids@.len() ==> #[trigger] ids@[j].key()
                        == self.extension_id_registry@[j].0.key(),
                forall|j: int| 0 <= j < found@.len() ==> info_fits(*self, #[trigger] found@[j]),
                info_keys(found@) == keys_with_info(*self, i as int),
            decreases ids@.len() - i,
        {
            let ghost before = found@;
            if let Some(info) = self.get_extension_info(&ids[i]) {
                found.push(info);
                proof {
                    assert(info_keys(found@) =~= info_keys(before).push(ids@[i as int].key()));
                }
            }
            i = i + 1;
        }
        let mut out: Vec<ExtensionRegistryInfo> = Vec::new();
        let mut names: Vec<Vec<char>> = Vec::new();
        let mut k: usize = 0;
        proof {
            assert(info_keys(found@.take(0)) =~= info_keys(out@));
        }
        while k < found.len()
            invariant
                k <= found@.len(),
                names@.len() == out@.len(),
                forall|j: int|
                    0 <= j < names@.len() ==> #[trigger] names@[j]@ == full_name_text(
                        out@[j].extension_id.key(),
                    ),
                forall|j: int| 0 <= j < found@.len() ==> info_fits(*self, #[trigger] found@[j]),
                forall|j: int| 0 <= j < out@.len() ==> info_fits(*self, #[trigger] out@[j]),
                info_keys(out@).to_multiset() == info_keys(found@.take(k as int)).to_multiset(),
                sorted_by_full_name(out@),
            decreases found@.len() - k,
        {
            let item = copy_info(&found[k]);
            let name = chars_of(item.extension_id.full_name().as_str());
            let mut p: usize = 0;
            while p < names.len() && !text_before(&name, &names[p])
                invariant
                    p <= names@.len(),
                    names@.len() == out@.len(),
                    forall|j: int|
                        0 <= j < names@.len() ==> #[trigger] names@[j]@ == full_name_text(
                            out@[j].extension_id.key(),
                        ),
                    forall|j: int|
                        0 <= j < p ==> !text_less(
                            name@,
                            full_name_text(#[trigger] out@[j].extension_id.key()),
                        ),
                decreases names@.len() - p,
            {
                p = p + 1;
            }
            let ghost old_out = out@;
            proof {
                assert(name@ == full_name_text(item.extension_id.key()));
                assert(p < old_out.len() ==> text_less(
                    name@,
                    full_name_text(old_out[p as int].extension_id.key()),
                ));
                assert forall|a: int, b: int|
                    0 <= a < b < old_out.len() + 1 implies !text_less(
                    full_name_text(#[trigger] old_out.insert(p as int, item)[b].extension_id.key()),
                    full_name_text(#[trigger] old_out.insert(p as int, item)[a].extension_id.key()),
                ) by {
                    let t = old_out.insert(p as int, item);
                    if b < p {
                        assert(t[a] == old_out[a] && t[b] == old_out[b]);
                    } else if b == p {
                        assert(t[a] == old_out[a] && t[b] == item);
                    } else if a < p {
                        assert(t[a] == old_out[a] && t[b] == old_out[b - 1]);
                    } else if a == p {
                        assert(t[a] == item && t[b] == old_out[b - 1]);
                        let fb = full_name_text(old_out[b - 1].extension_id.key());
                        let fp = full_name_text(old_out[p as int].extension_id.key());
                        if text_less(fb, name@) {
                            lemma_text_less_transitive(fb, name@, fp);
                            if b - 1 == p {
                                lemma_text_less_irreflexive(fb);
                            }
                        }
                    } else {
                        assert(t[a] == old_out[a - 1] && t[b] == old_out[b - 1]);
                    }
                }
                assert(info_keys(old_out.insert(p as int, item)) =~= info_keys(old_out).insert(
                    p as int,
                    item.extension_id.key(),
                ));
                assert(found@.take(k + 1) =~= found@.take(k as int).push(found@[k as int]));
                assert(info_keys(found@.take(k + 1)) =~= info_keys(found@.take(k as int)).push(
                    item.extension_id.key(),
                ));
                vstd::seq_lib::to_multiset_insert(info_keys(old_out), p as int, item.extension_id.key());
                vstd::seq_lib::to_multiset_build(info_keys(found@.take(k as int)), item.extension_id.key());
            }
            out.insert(p, item);
            names.insert(p, name);
            k = k + 1;
        }
        proof {
            assert(found@.take(found@.len() as int) =~= found@);
        }
        out
    }
}

/// A registration that succeeds is found afterwards: the extension under its
/// code, its identity in the table with that code; and any later
/// registration with the same code or the same identity is refused.
pub proof fn law_registration_found_and_exclusive(
    s: Seq<RegisteredExtension>,
    ids: Seq<(ExtensionId, u8)>,
    ext: RegisteredExtension,
    s2: Seq<RegisteredExtension>,
    ids2: Seq<(ExtensionId, u8)>,
    r: ExtensionResult<()>,
)
    requires
        registration_ok(s, ids, ext, s2, ids2, r),
        r is Ok,
    ensures
        has_code(s2, ext.code),
        s2[first_code_index(s2, ext.code)] == ext,
        resolved_code(ids2, ext.extension_id.key()) == Some(ext.code),
        forall|ext2: RegisteredExtension, s3: Seq<RegisteredExtension>, ids3: Seq<(ExtensionId, u8)>, r3: ExtensionResult<()>|
            #[trigger] registration_ok(s2, ids2, ext2, s3, ids3, r3) && (ext2.code == ext.code
                || ext2.extension_id.key() == ext.extension_id.key()) ==> r3 is Err,
{
    let n = s.len() as int;
    assert(s2[n].code == ext.code);
    assert(is_first_code(s2, ext.code, n));
    let k = first_code_index(s2, ext.code);
    assert(is_first_code(s2, ext.code, k));
    if k < n {
        assert(s[k].code == ext.code);
    }
    let m = ids.len() as int;
    assert(ids2[m].0.key() == ext.extension_id.key());
    assert(is_first_id(ids2, ext.extension_id.key(), m)) by {
        assert forall|j: int| 0 <= j < m implies #[trigger] ids2[j].0.key() != ext.extension_id.key() by {
            assert(ids2[j] == ids2.take(m)[j]);
        }
    }
    let q = first_id_index(ids2, ext.extension_id.key());
    assert(is_first_id(ids2, ext.extension_id.key(), q));
    if q < m {
        assert(ids2[q] == ids2.take(m)[q]);
        assert(ids[q].0.key() == ext.extension_id.key());
    }
}

/// A data unit of type `data_type` from `data`: raw bytes for a user
/// defined type, and for any other type what `from_raw` gives (its decoder's
/// data unit, or the raw bytes when it refuses them).
pub fn parse_with_extensions(data_type: DataUnitType, data: &[u8]) -> (r: GenericDataUnit)
    ensures
        data_type is UserDefined ==> (r matches GenericDataUnit::Raw { data_type: t, data: d }
            && t == data_type && d@ == data@),
        !(data_type is UserDefined) ==> generic_parse_ok(data_type, data@, Ok(r)),
{
    match data_type {
        DataUnitType::UserDefined(_) => GenericDataUnit::Raw {
            data_type,
            data: vstd::slice::slice_to_vec(data),
        },
        _ => match GenericDataUnit::from_raw(data_type, data) {
            Ok(u) => u,
            Err(_) => GenericDataUnit::Raw { data_type, data: vstd::slice::slice_to_vec(data) },
        },
    }
}

} // verus!
