//! The modules that a module refers to, and the tokens that stand for
//! them in type expressions.

use vstd::prelude::*;
use vstd::string::*;
use crate::errors::DisasmError;
use crate::file_format::{AccountAddress, CompiledModule};
use crate::text::{decimal, decimal_is_injective, decimal_is_not_empty, push_decimal};
use crate::Encode;

verus! {

/// One registered import: the module's name, its address, and the number
/// of addresses that had registered a module of that name before it.
pub struct ImportRecord {
    pub name: Seq<char>,
    pub address: Seq<u8>,
    pub alias: nat,
}

/// How many of the first `n` records carry `name`.
pub open spec fn count_upto(recs: Seq<ImportRecord>, name: Seq<char>, n: nat) -> nat
    decreases n,
{
    if n == 0 {
        0
    } else {
        count_upto(recs, name, (n - 1) as nat) + if recs[n - 1].name == name {
            1nat
        } else {
            0nat
        }
    }
}

/// The alias number under which `name` at `address` stands among the
/// first `n` records, if it does.
pub open spec fn find_upto(
    recs: Seq<ImportRecord>,
    name: Seq<char>,
    address: Seq<u8>,
    n: nat,
) -> Option<nat>
    decreases n,
{
    if n == 0 {
        None
    } else if recs[n - 1].name == name && recs[n - 1].address == address {
        Some(recs[n - 1].alias)
    } else {
        find_upto(recs, name, address, (n - 1) as nat)
    }
}

/// The alias number of `name` at `address` in the whole table.
pub open spec fn find(recs: Seq<ImportRecord>, name: Seq<char>, address: Seq<u8>) -> Option<nat> {
    find_upto(recs, name, address, recs.len())
}

/// The module handle at `i` points into the identifier pool and into the
/// address pool.
pub open spec fn handle_resolves(m: &CompiledModule, i: int) -> bool {
    &&& (m.module_handles@[i].name as int) < m.identifiers@.len()
    &&& (m.module_handles@[i].address as int) < m.address_identifiers@.len()
}

/// Every module handle but the module's own resolves.
pub open spec fn handles_resolve(m: &CompiledModule) -> bool {
    forall|i: int|
        0 <= i < m.module_handles@.len() && i != m.self_module_handle_idx ==> #[trigger] handle_resolves(
            m,
            i,
        )
}

/// The imports that the first `n` module handles register. The module's
/// own handle registers nothing. Another handle registers its name and
/// address unless they stand there already; its alias number is the
/// number of records that carry its name so far.
pub open spec fn import_records(m: &CompiledModule, n: nat) -> Seq<ImportRecord>
    decreases n,
{
    if n == 0 {
        Seq::empty()
    } else {
        let prev = import_records(m, (n - 1) as nat);
        let h = m.module_handles@[n - 1];
        let name = m.identifiers@[h.name as int]@;
        let address = m.address_identifiers@[h.address as int]@;
        if n - 1 == m.self_module_handle_idx || find(prev, name, address) is Some {
            prev
        } else {
            prev.push(ImportRecord { name, address, alias: count_upto(prev, name, prev.len()) })
        }
    }
}

/// The token that stands for an imported module in type expressions: its
/// name, followed by the alias number unless that is 0.
pub open spec fn import_token(name: Seq<char>, alias: nat) -> Seq<char> {
    if alias == 0 {
        name
    } else {
        name + decimal(alias)
    }
}

/// Two addresses that registered a module of one name are referred to by
/// different tokens.
pub proof fn import_tokens_differ(name: Seq<char>, a: nat, b: nat)
    requires
        a != b,
    ensures
        import_token(name, a) != import_token(name, b),
{
    decimal_is_not_empty(a);
    decimal_is_not_empty(b);
    let x = import_token(name, a);
    let y = import_token(name, b);
    if a != 0 && b != 0 {
        if x == y {
            assert(x.skip(name.len() as int) =~= decimal(a));
            assert(y.skip(name.len() as int) =~= decimal(b));
            decimal_is_injective(a, b);
        }
    } else if a == 0 {
        assert(y.len() > name.len());
    } else {
        assert(x.len() > name.len());
    }
}

/// The module handle at `k` is not the module's own and points to `name`
/// and `address`.
pub open spec fn named_by(m: &CompiledModule, k: int, name: Seq<char>, address: Seq<u8>) -> bool {
    &&& k != m.self_module_handle_idx
    &&& m.identifiers@[m.module_handles@[k].name as int]@ == name
    &&& m.address_identifiers@[m.module_handles@[k].address as int]@ == address
}

/// Records that agree on their first `n` places give the same search
/// result and the same count there.
proof fn same_prefix_same_result(
    a: Seq<ImportRecord>,
    b: Seq<ImportRecord>,
    name: Seq<char>,
    address: Seq<u8>,
    n: nat,
)
    requires
        n <= a.len(),
        n <= b.len(),
        forall|i: int| 0 <= i < n ==> a[i] == b[i],
    ensures
        find_upto(a, name, address, n) == find_upto(b, name, address, n),
        count_upto(a, name, n) == count_upto(b, name, n),
    decreases n,
{
    if n > 0 {
        same_prefix_same_result(a, b, name, address, (n - 1) as nat);
    }
}

/// A search that finds nothing among the first `n` records passed no
/// record of that name and address.
proof fn nothing_found_nothing_there(
    recs: Seq<ImportRecord>,
    name: Seq<char>,
    address: Seq<u8>,
    n: nat,
    i: int,
)
    requires
        0 <= i < n,
        find_upto(recs, name, address, n) is None,
    ensures
        recs[i].name != name || recs[i].address != address,
    decreases n,
{
    if i < n - 1 {
        nothing_found_nothing_there(recs, name, address, (n - 1) as nat, i);
    }
}

/// The first `n` handles never shorten the table: what the first `n - 1`
/// registered stays where it is.
proof fn records_grow(m: &CompiledModule, n: nat)
    requires
        n > 0,
    ensures
        import_records(m, (n - 1) as nat).len() <= import_records(m, n).len(),
        forall|i: int|
            0 <= i < import_records(m, (n - 1) as nat).len() ==> import_records(m, n)[i]
                == import_records(m, (n - 1) as nat)[i],
{
}

/// No module is registered twice: two records of a module's imports
/// differ in their name or in their address.
pub proof fn imports_are_distinct(m: &CompiledModule, n: nat, i: int, j: int)
    requires
        0 <= i < j < import_records(m, n).len(),
    ensures
        import_records(m, n)[i].name != import_records(m, n)[j].name || import_records(m, n)[i].address
            != import_records(m, n)[j].address,
    decreases n,
{
    if n > 0 {
        let prev = import_records(m, (n - 1) as nat);
        records_grow(m, n);
        if j < prev.len() {
            imports_are_distinct(m, (n - 1) as nat, i, j);
        } else {
            let last = import_records(m, n)[j];
            nothing_found_nothing_there(prev, last.name, last.address, prev.len(), i);
        }
    }
}

/// Aliases are numbered in the order of registration, name by name: the
/// alias number of a record is the number of records before it that
/// carry its name. The first address of a name has the bare name.
pub proof fn aliases_count_earlier_records(m: &CompiledModule, n: nat, i: int)
    requires
        0 <= i < import_records(m, n).len(),
    ensures
        import_records(m, n)[i].alias == count_upto(
            import_records(m, n),
            import_records(m, n)[i].name,
            i as nat,
        ),
    decreases n,
{
    if n > 0 {
        let prev = import_records(m, (n - 1) as nat);
        let recs = import_records(m, n);
        records_grow(m, n);
        if i < prev.len() {
            aliases_count_earlier_records(m, (n - 1) as nat, i);
            same_prefix_same_result(prev, recs, recs[i].name, recs[i].address, i as nat);
        } else {
            same_prefix_same_result(prev, recs, recs[i].name, recs[i].address, i as nat);
        }
    }
}

/// A name and address are registered after the first `n` handles exactly
/// if one of those handles, other than the module's own, points to them.
/// So the module's own handle registers nothing, and every other handle
/// can be looked up.
pub proof fn registered_iff_named(m: &CompiledModule, n: nat, name: Seq<char>, address: Seq<u8>)
    ensures
        find(import_records(m, n), name, address) is Some <==> exists|k: int|
            0 <= k < n && #[trigger] named_by(m, k, name, address),
    decreases n,
{
    if n > 0 {
        let prev = import_records(m, (n - 1) as nat);
        let recs = import_records(m, n);
        let h = m.module_handles@[n - 1];
        let h_name = m.identifiers@[h.name as int]@;
        let h_address = m.address_identifiers@[h.address as int]@;
        registered_iff_named(m, (n - 1) as nat, name, address);
        registered_iff_named(m, (n - 1) as nat, h_name, h_address);
        records_grow(m, n);
        same_prefix_same_result(prev, recs, name, address, prev.len());
        if find(recs, name, address) is Some {
            if find(prev, name, address) is Some {
                let k = choose|k: int| 0 <= k < n - 1 && #[trigger] named_by(m, k, name, address);
                assert(0 <= k < n && named_by(m, k, name, address));
            } else {
                assert(named_by(m, n - 1, name, address));
            }
        }
        if exists|k: int| 0 <= k < n && #[trigger] named_by(m, k, name, address) {
            let k = choose|k: int| 0 <= k < n && #[trigger] named_by(m, k, name, address);
            if k < n - 1 {
                assert(find(prev, name, address) is Some);
            } else {
                assert(h_name == name && h_address == address);
            }
            assert(find(recs, name, address) is Some);
        }
    }
}

/// The name under which an imported module is referred to.
#[derive(Debug)]
pub enum ImportName {
    /// The module's own name.
    Name(String),
    /// The module's name and a number, for a name that another address
    /// registered first.
    Alias(String, usize),
}

impl ImportName {
    pub open spec fn module_name(&self) -> Seq<char> {
        match self {
            ImportName::Name(s) => s@,
            ImportName::Alias(s, _) => s@,
        }
    }

    pub open spec fn alias(&self) -> nat {
        match self {
            ImportName::Name(_) => 0,
            ImportName::Alias(_, c) => *c as nat,
        }
    }

    /// An alias carries a number above 0.
    pub open spec fn wf(&self) -> bool {
        self is Alias ==> self.alias() > 0
    }
}

impl Clone for ImportName {
    fn clone(&self) -> (r: ImportName)
        ensures
            r == *self,
    {
        match self {
            ImportName::Name(s) => ImportName::Name(s.clone()),
            ImportName::Alias(s, c) => ImportName::Alias(s.clone(), *c),
        }
    }
}

impl Encode for ImportName {
    open spec fn text(&self, indent: u8) -> Seq<char> {
        match self {
            ImportName::Name(s) => s@,
            ImportName::Alias(s, c) => s@ + decimal(*c as nat),
        }
    }

    fn encode(&self, w: &mut String, indent: u8) {
        match self {
            ImportName::Name(s) => {
                w.append(s.as_str());
            },
            ImportName::Alias(s, c) => {
                w.append(s.as_str());
                push_decimal(w, *c);
                assert(w@ =~= old(w)@ + self.text(indent));
            },
        }
    }
}

struct ImportEntry {
    address: AccountAddress,
    import: ImportName,
}

impl ImportEntry {
    spec fn record(self) -> ImportRecord {
        ImportRecord {
            name: self.import.module_name(),
            address: self.address@,
            alias: self.import.alias(),
        }
    }
}

/// The records that a list of entries stands for.
spec fn records_of(entries: Seq<ImportEntry>) -> Seq<ImportRecord> {
    Seq::new(entries.len(), |i: int| entries[i].record())
}

/// Walks the entries once: the place of `name` at `address`, if it is
/// registered, and the number of entries that carry `name`.
fn scan(entries: &Vec<ImportEntry>, address: &AccountAddress, name: &String) -> (r: (
    Option<usize>,
    usize,
))
    ensures
        r.1 == count_upto(records_of(entries@), name@, entries@.len()),
        r.1 <= entries@.len(),
        match r.0 {
            Some(k) => k < entries@.len() && find(records_of(entries@), name@, address@) == Some(
                entries@[k as int].import.alias(),
            ) && entries@[k as int].import.module_name() == name@,
            None => find(records_of(entries@), name@, address@) is None,
        },
{
    let ghost recs = records_of(entries@);
    let mut found: Option<usize> = None;
    let mut count: usize = 0;
    let mut j: usize = 0;
    while j < entries.len()
        invariant
            j <= entries@.len(),
            recs == records_of(entries@),
            count <= j,
            count == count_upto(recs, name@, j as nat),
            match found {
                Some(k) => k < j && find_upto(recs, name@, address@, j as nat) == Some(
                    recs[k as int].alias,
                ) && recs[k as int].name == name@,
                None => find_upto(recs, name@, address@, j as nat) is None,
            },
        decreases entries@.len() - j,
    {
        let entry = &entries[j];
        let same_name = match &entry.import {
            ImportName::Name(s) => s.eq(name),
            ImportName::Alias(s, _) => s.eq(name),
        };
        assert(same_name == (recs[j as int].name == name@));
        if same_name {
            count += 1;
            if entry.address.same_as(address) {
                found = Some(j);
            }
        }
        j += 1;
    }
    (found, count)
}

/// The imports of one module, by module name and address.
pub struct Imports {
    entries: Vec<ImportEntry>,
}

impl View for Imports {
    type V = Seq<ImportRecord>;

    closed spec fn view(&self) -> Seq<ImportRecord> {
        records_of(self.entries@)
    }
}

impl Imports {
    /// Every import of the table is well formed.
    #[verifier::type_invariant]
    spec fn wf(self) -> bool {
        forall|i: int| 0 <= i < self.entries@.len() ==> (#[trigger] self.entries@[i]).import.wf()
    }

    /// Registers the imports of a module, handle by handle.
    pub fn new(module: &CompiledModule) -> (r: Result<Imports, DisasmError>)
        ensures
            r is Ok <==> handles_resolve(module),
            r matches Ok(t) ==> t@ == import_records(module, module.module_handles@.len()),
            r matches Err(e) ==> e == DisasmError::StructuralIndex,
    {
        let mut entries: Vec<ImportEntry> = Vec::new();
        let mut i: usize = 0;
        assert(records_of(entries@) =~= import_records(module, 0));
        while i < module.module_handles.len()
            invariant
                i <= module.module_handles@.len(),
                forall|k: int| 0 <= k < entries@.len() ==> (#[trigger] entries@[k]).import.wf(),
                records_of(entries@) == import_records(module, i as nat),
                forall|k: int|
                    0 <= k < i && k != module.self_module_handle_idx ==> #[trigger] handle_resolves(
                        module,
                        k,
                    ),
            decreases module.module_handles@.len() - i,
        {
            if i != module.self_module_handle_idx as usize {
                let h = module.module_handles[i];
                if h.name as usize >= module.identifiers.len() || h.address as usize
                    >= module.address_identifiers.len() {
                    assert(!handle_resolves(module, i as int));
                    return Err(DisasmError::StructuralIndex);
                }
                let name = &module.identifiers[h.name as usize];
                let address = module.address_identifiers[h.address as usize];
                let (found, count) = scan(&entries, &address, name);
                if found.is_none() {
                    let import = if count == 0 {
                        ImportName::Name(name.clone())
                    } else {
                        ImportName::Alias(name.clone(), count)
                    };
                    let ghost before = records_of(entries@);
                    entries.push(ImportEntry { address, import });
                    assert(records_of(entries@) =~= before.push(
                        ImportRecord { name: name@, address: address@, alias: count as nat },
                    ));
                }
            }
            i += 1;
        }
        Ok(Imports { entries })
    }

    /// The import that stands for the module `name` at `address`, if one
    /// is registered.
    pub fn get_import(&self, address: &AccountAddress, name: &str) -> (r: Option<ImportName>)
        ensures
            match find(self@, name@, address@) {
                Some(k) => r matches Some(import) && import.module_name() == name@
                    && import.alias() == k && import.wf(),
                None => r is None,
            },
    {
        proof {
            use_type_invariant(self);
        }
        let wanted = String::from_str(name);
        let (found, _) = scan(&self.entries, address, &wanted);
        match found {
            Some(k) => Some(self.entries[k].import.clone()),
            None => None,
        }
    }
}

} // verus!
