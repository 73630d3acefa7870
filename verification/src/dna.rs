//! The application manifest: a named collection of application modules
//! ("zomes"), each carrying entry-type definitions, traits, function
//! declarations, bytecode, and the validation behaviour of that bytecode.
//!
//! The manifest is itself content: it has a canonical serialization and an
//! address derived from it.

use vstd::prelude::*;
use vstd::string::*;
use crate::error::DnaError;
use crate::error::HolochainError;
use crate::hashing::Address;
use crate::hashing::address_for_bytes;
use crate::hashing::address_text_of;
use crate::hashing::append_bytes;
use crate::hashing::be64_of;
use crate::hashing::canon_str;
use crate::hashing::append_canon_str;
use crate::hashing::multihash_sha2_256;
use crate::hashing::multihash_sha2_256_of;
use crate::hashing::push_be64;
use crate::hashing::utf8_of;

verus! {

/// The name of an application-defined entry type.
pub type AppEntryType = String;

/// A valid application entry-type name is non-empty and does not carry the
/// reserved system prefix.
pub open spec fn valid_app_entry_name(s: Seq<char>) -> bool {
    s.len() > 0 && s[0] != '%'
}

/// How an entry type is shared with the network.
#[derive(Clone, Copy, Debug, PartialEq, Eq, Structural)]
pub enum Sharing {
    Public,
    Private,
}

/// The definition of one application entry type.
#[derive(Debug, PartialEq)]
pub struct EntryTypeDef {
    pub description: String,
    pub sharing: Sharing,
}

impl Clone for EntryTypeDef {
    fn clone(&self) -> (r: Self)
        ensures
            r == *self,
    {
        EntryTypeDef { description: self.description.clone(), sharing: self.sharing }
    }
}

/// An entry-type name with its definition.
#[derive(Debug, PartialEq)]
pub struct EntryTypeRow {
    pub name: String,
    pub def: EntryTypeDef,
}

impl Clone for EntryTypeRow {
    fn clone(&self) -> (r: Self)
        ensures
            r == *self,
    {
        EntryTypeRow { name: self.name.clone(), def: self.def.clone() }
    }
}

/// A copy of a vector of strings, element for element.
pub fn clone_strings(v: &Vec<String>) -> (r: Vec<String>)
    ensures
        r@ == v@,
{
    let mut out: Vec<String> = Vec::new();
    let mut i: usize = 0;
    while i < v.len()
        invariant
            i <= v@.len(),
            out@ == v@.subrange(0, i as int),
        decreases v@.len() - i,
    {
        out.push(v[i].clone());
        proof {
            assert(out@ =~= v@.subrange(0, (i + 1) as int));
        }
        i = i + 1;
    }
    proof {
        assert(v@.subrange(0, v@.len() as int) =~= v@);
    }
    out
}

/// The functions a zome exposes under one trait name.
#[derive(Debug, PartialEq)]
pub struct TraitFns {
    pub functions: Vec<String>,
}

/// Observable equality of trait-function tables.
pub open spec fn trait_fns_eqv(a: TraitFns, b: TraitFns) -> bool {
    a.functions@ == b.functions@
}

impl Clone for TraitFns {
    fn clone(&self) -> (r: Self)
        ensures
            trait_fns_eqv(r, *self),
    {
        TraitFns { functions: clone_strings(&self.functions) }
    }
}

/// A trait name with its functions.
#[derive(Debug, PartialEq)]
pub struct TraitRow {
    pub name: String,
    pub fns: TraitFns,
}

/// Observable equality of trait rows.
pub open spec fn trait_row_eqv(a: TraitRow, b: TraitRow) -> bool {
    a.name == b.name && trait_fns_eqv(a.fns, b.fns)
}

impl Clone for TraitRow {
    fn clone(&self) -> (r: Self)
        ensures
            trait_row_eqv(r, *self),
    {
        TraitRow { name: self.name.clone(), fns: self.fns.clone() }
    }
}

/// One declared parameter of a zome function.
#[derive(Debug, PartialEq)]
pub struct FnParameter {
    pub name: String,
    pub parameter_type: String,
}

impl Clone for FnParameter {
    fn clone(&self) -> (r: Self)
        ensures
            r == *self,
    {
        FnParameter { name: self.name.clone(), parameter_type: self.parameter_type.clone() }
    }
}

/// The declaration of one callable zome function.
#[derive(Debug, PartialEq)]
pub struct FnDeclaration {
    pub name: String,
    pub inputs: Vec<FnParameter>,
    pub outputs: Vec<FnParameter>,
}

/// A copy of a vector of function parameters, element for element.
pub fn clone_params(v: &Vec<FnParameter>) -> (r: Vec<FnParameter>)
    ensures
        r@ == v@,
{
    let mut out: Vec<FnParameter> = Vec::new();
    let mut i: usize = 0;
    while i < v.len()
        invariant
            i <= v@.len(),
            out@ == v@.subrange(0, i as int),
        decreases v@.len() - i,
    {
        out.push(v[i].clone());
        proof {
            assert(out@ =~= v@.subrange(0, (i + 1) as int));
        }
        i = i + 1;
    }
    proof {
        assert(v@.subrange(0, v@.len() as int) =~= v@);
    }
    out
}

/// Observable equality of function declarations.
pub open spec fn fn_decl_eqv(a: FnDeclaration, b: FnDeclaration) -> bool {
    a.name == b.name && a.inputs@ == b.inputs@ && a.outputs@ == b.outputs@
}

impl Clone for FnDeclaration {
    fn clone(&self) -> (r: Self)
        ensures
            fn_decl_eqv(r, *self),
    {
        FnDeclaration {
            name: self.name.clone(),
            inputs: clone_params(&self.inputs),
            outputs: clone_params(&self.outputs),
        }
    }
}

/// What the module's validation callback decides for entries it is asked to
/// judge.  The bytecode itself runs outside this core; its verdict is carried
/// here as data.
#[derive(Debug, PartialEq)]
pub enum ValidationRule {
    /// The callback accepts every entry.
    Accept,
    /// The callback rejects every entry, with the given reason.
    Reject(String),
}

impl Clone for ValidationRule {
    fn clone(&self) -> (r: Self)
        ensures
            r == *self,
    {
        match self {
            ValidationRule::Accept => ValidationRule::Accept,
            ValidationRule::Reject(m) => ValidationRule::Reject(m.clone()),
        }
    }
}

/// A zome's bytecode together with the verdict its validation callback
/// renders.
#[derive(Debug, PartialEq)]
pub struct DnaWasm {
    pub code: Vec<u8>,
    pub validation: ValidationRule,
}

/// Observable equality of zome bytecode.
pub open spec fn wasm_eqv(a: DnaWasm, b: DnaWasm) -> bool {
    a.code@ == b.code@ && a.validation == b.validation
}

impl Clone for DnaWasm {
    fn clone(&self) -> (r: Self)
        ensures
            wasm_eqv(r, *self),
    {
        let code = self.code.clone();
        proof {
            assert(code@ =~= self.code@);
        }
        DnaWasm { code, validation: self.validation.clone() }
    }
}

/// A bridge this zome expects to another application instance.
#[derive(Debug, PartialEq)]
pub struct Bridge {
    pub required: bool,
    pub handle: String,
}

impl Clone for Bridge {
    fn clone(&self) -> (r: Self)
        ensures
            r == *self,
    {
        Bridge { required: self.required, handle: self.handle.clone() }
    }
}

/// One application module of the manifest.
#[derive(Debug, PartialEq)]
pub struct Zome {
    pub description: String,
    pub entry_types: Vec<EntryTypeRow>,
    pub traits: Vec<TraitRow>,
    pub fn_declarations: Vec<FnDeclaration>,
    pub code: DnaWasm,
    pub bridges: Vec<Bridge>,
}

/// Observable equality of sequences of trait rows.
pub open spec fn trait_rows_eqv(a: Seq<TraitRow>, b: Seq<TraitRow>) -> bool {
    a.len() == b.len() && forall|i: int| 0 <= i < a.len() ==> trait_row_eqv(a[i], b[i])
}

/// Observable equality of sequences of function declarations.
pub open spec fn fn_decls_eqv(a: Seq<FnDeclaration>, b: Seq<FnDeclaration>) -> bool {
    a.len() == b.len() && forall|i: int| 0 <= i < a.len() ==> fn_decl_eqv(a[i], b[i])
}

/// Observable equality of zomes.
pub open spec fn zome_eqv(a: Zome, b: Zome) -> bool {
    &&& a.description == b.description
    &&& a.entry_types@ == b.entry_types@
    &&& trait_rows_eqv(a.traits@, b.traits@)
    &&& fn_decls_eqv(a.fn_declarations@, b.fn_declarations@)
    &&& wasm_eqv(a.code, b.code)
    &&& a.bridges@ == b.bridges@
}

/// A copy of a vector of entry-type rows, element for element.
pub fn clone_entry_type_rows(v: &Vec<EntryTypeRow>) -> (r: Vec<EntryTypeRow>)
    ensures
        r@ == v@,
{
    let mut out: Vec<EntryTypeRow> = Vec::new();
    let mut i: usize = 0;
    while i < v.len()
        invariant
            i <= v@.len(),
            out@ == v@.subrange(0, i as int),
        decreases v@.len() - i,
    {
        out.push(v[i].clone());
        proof {
            assert(out@ =~= v@.subrange(0, (i + 1) as int));
        }
        i = i + 1;
    }
    proof {
        assert(v@.subrange(0, v@.len() as int) =~= v@);
    }
    out
}

/// A copy of a vector of trait rows, row for row.
pub fn clone_trait_rows(v: &Vec<TraitRow>) -> (r: Vec<TraitRow>)
    ensures
        trait_rows_eqv(r@, v@),
{
    let mut out: Vec<TraitRow> = Vec::new();
    let mut i: usize = 0;
    while i < v.len()
        invariant
            i <= v@.len(),
            out@.len() == i,
            forall|j: int| 0 <= j < i ==> trait_row_eqv(out@[j], v@[j]),
        decreases v@.len() - i,
    {
        out.push(v[i].clone());
        i = i + 1;
    }
    out
}

/// A copy of a vector of function declarations, row for row.
pub fn clone_fn_decls(v: &Vec<FnDeclaration>) -> (r: Vec<FnDeclaration>)
    ensures
        fn_decls_eqv(r@, v@),
{
    let mut out: Vec<FnDeclaration> = Vec::new();
    let mut i: usize = 0;
    while i < v.len()
        invariant
            i <= v@.len(),
            out@.len() == i,
            forall|j: int| 0 <= j < i ==> fn_decl_eqv(out@[j], v@[j]),
        decreases v@.len() - i,
    {
        out.push(v[i].clone());
        i = i + 1;
    }
    out
}

/// A copy of a vector of bridges, element for element.
pub fn clone_bridges(v: &Vec<Bridge>) -> (r: Vec<Bridge>)
    ensures
        r@ == v@,
{
    let mut out: Vec<Bridge> = Vec::new();
    let mut i: usize = 0;
    while i < v.len()
        invariant
            i <= v@.len(),
            out@ == v@.subrange(0, i as int),
        decreases v@.len() - i,
    {
        out.push(v[i].clone());
        proof {
            assert(out@ =~= v@.subrange(0, (i + 1) as int));
        }
        i = i + 1;
    }
    proof {
        assert(v@.subrange(0, v@.len() as int) =~= v@);
    }
    out
}

impl Clone for Zome {
    fn clone(&self) -> (r: Self)
        ensures
            zome_eqv(r, *self),
    {
        Zome {
            description: self.description.clone(),
            entry_types: clone_entry_type_rows(&self.entry_types),
            traits: clone_trait_rows(&self.traits),
            fn_declarations: clone_fn_decls(&self.fn_declarations),
            code: self.code.clone(),
            bridges: clone_bridges(&self.bridges),
        }
    }
}

/// A zome name with its zome.
#[derive(Debug, PartialEq)]
pub struct ZomeEntry {
    pub name: String,
    pub zome: Zome,
}

/// Observable equality of named zomes.
pub open spec fn zome_entry_eqv(a: ZomeEntry, b: ZomeEntry) -> bool {
    a.name == b.name && zome_eqv(a.zome, b.zome)
}

/// Observable equality of sequences of named zomes.
pub open spec fn zome_entries_eqv(a: Seq<ZomeEntry>, b: Seq<ZomeEntry>) -> bool {
    a.len() == b.len() && forall|i: int| 0 <= i < a.len() ==> zome_entry_eqv(a[i], b[i])
}

impl Clone for ZomeEntry {
    fn clone(&self) -> (r: Self)
        ensures
            zome_entry_eqv(r, *self),
    {
        ZomeEntry { name: self.name.clone(), zome: self.zome.clone() }
    }
}

/// The top-level application manifest.
#[derive(Debug, PartialEq)]
pub struct Dna {
    /// The application's name.
    pub name: String,
    /// The application's description.
    pub description: String,
    /// The application's semantic version.
    pub version: String,
    /// A unique identifier distinguishing this application.
    pub uuid: String,
    /// Which manifest format version this represents.
    pub dna_spec_version: String,
    /// Arbitrary application properties, as raw serialized text.
    pub properties: String,
    /// The zomes of the application, in insertion order.
    pub zomes: Vec<ZomeEntry>,
}

/// Observable equality of manifests: every field agrees, zome for zome.
pub open spec fn dna_eqv(a: Dna, b: Dna) -> bool {
    &&& a.name == b.name
    &&& a.description == b.description
    &&& a.version == b.version
    &&& a.uuid == b.uuid
    &&& a.dna_spec_version == b.dna_spec_version
    &&& a.properties == b.properties
    &&& zome_entries_eqv(a.zomes@, b.zomes@)
}

/// A copy of a vector of named zomes, zome for zome.
pub fn clone_zome_entries(v: &Vec<ZomeEntry>) -> (r: Vec<ZomeEntry>)
    ensures
        zome_entries_eqv(r@, v@),
{
    let mut out: Vec<ZomeEntry> = Vec::new();
    let mut i: usize = 0;
    while i < v.len()
        invariant
            i <= v@.len(),
            out@.len() == i,
            forall|j: int| 0 <= j < i ==> zome_entry_eqv(out@[j], v@[j]),
        decreases v@.len() - i,
    {
        out.push(v[i].clone());
        i = i + 1;
    }
    out
}

impl Clone for Dna {
    fn clone(&self) -> (r: Self)
        ensures
            dna_eqv(r, *self),
    {
        let zomes = clone_zome_entries(&self.zomes);
        Dna {
            name: self.name.clone(),
            description: self.description.clone(),
            version: self.version.clone(),
            uuid: self.uuid.clone(),
            dna_spec_version: self.dna_spec_version.clone(),
            properties: self.properties.clone(),
            zomes,
        }
    }
}

/// The all-zero identifier used where no identifier was assigned.
pub fn zero_uuid() -> (r: String)
    ensures
        r@ == "00000000-0000-0000-0000-000000000000"@,
{
    "00000000-0000-0000-0000-000000000000".to_owned()
}

/// The serialized form of an empty properties object.
fn empty_object() -> (r: String)
    ensures
        r@ == "{}"@,
{
    "{}".to_owned()
}

impl Default for Dna {
    fn default() -> (r: Self)
        ensures
            r.name@ == Seq::<char>::empty(),
            r.description@ == Seq::<char>::empty(),
            r.version@ == Seq::<char>::empty(),
            r.uuid@ == "00000000-0000-0000-0000-000000000000"@,
            r.dna_spec_version@ == "2.0"@,
            r.properties@ == "{}"@,
            r.zomes@ == Seq::<ZomeEntry>::empty(),
            dna_well_formed(r),
    {
        let r = Dna {
            name: String::new(),
            description: String::new(),
            version: String::new(),
            uuid: zero_uuid(),
            dna_spec_version: "2.0".to_owned(),
            properties: empty_object(),
            zomes: Vec::new(),
        };
        proof {
            assert(r.zomes@ =~= Seq::<ZomeEntry>::empty());
        }
        r
    }
}

// --- lookups ------------------------------------------------------------

/// Whether some zome of the sequence carries the given name.
pub open spec fn has_zome(zs: Seq<ZomeEntry>, name: Seq<char>) -> bool {
    exists|i: int| 0 <= i < zs.len() && zs[i].name@ == name
}

/// `i` is the first position whose zome carries the given name.
pub open spec fn first_zome_at(zs: Seq<ZomeEntry>, name: Seq<char>, i: int) -> bool {
    &&& 0 <= i < zs.len()
    &&& zs[i].name@ == name
    &&& forall|j: int| 0 <= j < i ==> zs[j].name@ != name
}

/// Whether the zome defines an entry type of the given name.
pub open spec fn zome_has_entry_type(z: Zome, name: Seq<char>) -> bool {
    exists|i: int| 0 <= i < z.entry_types@.len() && z.entry_types@[i].name@ == name
}

/// `k` is the first position of the zome's entry-type rows carrying the
/// given name.
pub open spec fn first_entry_type_at(rs: Seq<EntryTypeRow>, name: Seq<char>, k: int) -> bool {
    &&& 0 <= k < rs.len()
    &&& rs[k].name@ == name
    &&& forall|j: int| 0 <= j < k ==> rs[j].name@ != name
}

/// Whether some declaration of the sequence carries the given name.
pub open spec fn has_fn_decl(fs: Seq<FnDeclaration>, name: Seq<char>) -> bool {
    exists|i: int| 0 <= i < fs.len() && fs[i].name@ == name
}

/// `i` is the first position whose declaration carries the given name.
pub open spec fn first_fn_decl_at(fs: Seq<FnDeclaration>, name: Seq<char>, i: int) -> bool {
    &&& 0 <= i < fs.len()
    &&& fs[i].name@ == name
    &&& forall|j: int| 0 <= j < i ==> fs[j].name@ != name
}

/// Whether some trait row of the sequence carries the given name.
pub open spec fn has_trait(ts: Seq<TraitRow>, name: Seq<char>) -> bool {
    exists|i: int| 0 <= i < ts.len() && ts[i].name@ == name
}

/// `i` is the first position whose trait row carries the given name.
pub open spec fn first_trait_at(ts: Seq<TraitRow>, name: Seq<char>, i: int) -> bool {
    &&& 0 <= i < ts.len()
    &&& ts[i].name@ == name
    &&& forall|j: int| 0 <= j < i ==> ts[j].name@ != name
}

/// The invariant of the replaced name-keyed zome table: zome names are
/// unique, so a lookup's first match is its only match.
pub open spec fn zome_names_unique(zs: Seq<ZomeEntry>) -> bool {
    forall|i: int, j: int| 0 <= i < j < zs.len() ==> zs[i].name@ != zs[j].name@
}

/// The invariant of a zome's replaced name-keyed entry-type table.
pub open spec fn entry_type_names_unique(rs: Seq<EntryTypeRow>) -> bool {
    forall|i: int, j: int| 0 <= i < j < rs.len() ==> rs[i].name@ != rs[j].name@
}

/// The invariant of a well-formed manifest: the name-keyed tables the
/// zome vector and each zome's entry-type vector stand for hold each key
/// once.
pub open spec fn dna_well_formed(d: Dna) -> bool {
    &&& zome_names_unique(d.zomes@)
    &&& forall|i: int|
        0 <= i < d.zomes@.len() ==> entry_type_names_unique(
            (#[trigger] d.zomes@[i]).zome.entry_types@,
        )
}

/// Under the uniqueness invariant, the first zome of a name is the only
/// one: any position carrying the name is that first position.
pub proof fn lemma_unique_zome_lookup(zs: Seq<ZomeEntry>, name: Seq<char>, i: int, j: int)
    requires
        zome_names_unique(zs),
        first_zome_at(zs, name, i),
        0 <= j < zs.len(),
        zs[j].name@ == name,
    ensures
        j == i,
{
    if j < i {
        assert(zs[j].name@ != name);
    } else if i < j {
        assert(zs[i].name@ != zs[j].name@);
    }
}

impl Zome {
    /// Whether this zome defines an entry type of the given name.
    pub fn has_entry_type(&self, name: &String) -> (r: bool)
        ensures
            r == zome_has_entry_type(*self, name@),
    {
        let mut i: usize = 0;
        while i < self.entry_types.len()
            invariant
                i <= self.entry_types@.len(),
                forall|j: int| 0 <= j < i ==> self.entry_types@[j].name@ != name@,
            decreases self.entry_types@.len() - i,
        {
            if self.entry_types[i].name == *name {
                return true;
            }
            i = i + 1;
        }
        false
    }

    /// The bridges this zome requires, in declaration order.
    pub fn get_required_bridges(&self) -> (r: Vec<Bridge>)
        ensures
            r@ == required_of(self.bridges@),
    {
        let mut out: Vec<Bridge> = Vec::new();
        let mut i: usize = 0;
        while i < self.bridges.len()
            invariant
                i <= self.bridges@.len(),
                out@ == required_of(self.bridges@.subrange(0, i as int)),
            decreases self.bridges@.len() - i,
        {
            proof {
                assert(self.bridges@.subrange(0, (i + 1) as int).drop_last() =~= self
                    .bridges@.subrange(0, i as int));
            }
            if self.bridges[i].required {
                out.push(self.bridges[i].clone());
            }
            i = i + 1;
        }
        proof {
            assert(self.bridges@.subrange(0, self.bridges@.len() as int) =~= self.bridges@);
        }
        out
    }
}

/// The required bridges among `bs`, in order.
pub open spec fn required_of(bs: Seq<Bridge>) -> Seq<Bridge>
    decreases bs.len(),
{
    if bs.len() == 0 {
        Seq::empty()
    } else if bs.last().required {
        required_of(bs.drop_last()).push(bs.last())
    } else {
        required_of(bs.drop_last())
    }
}

impl Dna {
    /// A fresh manifest with default values.
    pub fn new() -> (r: Self)
        ensures
            r.name@ == Seq::<char>::empty(),
            r.description@ == Seq::<char>::empty(),
            r.version@ == Seq::<char>::empty(),
            r.uuid@ == "00000000-0000-0000-0000-000000000000"@,
            r.dna_spec_version@ == "2.0"@,
            r.properties@ == "{}"@,
            r.zomes@ == Seq::<ZomeEntry>::empty(),
            dna_well_formed(r),
    {
        Dna::default()
    }

    /// Look a zome up by name; the first zome of that name, or an error
    /// naming the missing zome.
    pub fn get_zome(&self, zome_name: &str) -> (r: Result<&Zome, DnaError>)
        ensures
            r is Ok <==> has_zome(self.zomes@, zome_name@),
            r matches Ok(z) ==> exists|i: int|
                #![auto]
                first_zome_at(self.zomes@, zome_name@, i) && *z == self.zomes@[i].zome,
            r matches Err(e) ==> e matches DnaError::ZomeNotFound(m) && m@ == "Zome '"@
                + zome_name@ + "' not found"@,
    {
        let key: String = zome_name.to_owned();
        let mut i: usize = 0;
        while i < self.zomes.len()
            invariant
                i <= self.zomes@.len(),
                key@ == zome_name@,
                forall|j: int| 0 <= j < i ==> self.zomes@[j].name@ != zome_name@,
            decreases self.zomes@.len() - i,
        {
            if self.zomes[i].name == key {
                proof {
                    assert(first_zome_at(self.zomes@, zome_name@, i as int));
                }
                return Ok(&self.zomes[i].zome);
            }
            i = i + 1;
        }
        Err(
            DnaError::ZomeNotFound(
                String::from_str("Zome '").concat(zome_name).concat("' not found"),
            ),
        )
    }

    /// The trait of the given name in the given zome, if declared.
    pub fn get_trait<'a>(&'a self, zome: &'a Zome, trait_name: &str) -> (r: Option<&'a TraitFns>)
        ensures
            r is Some <==> has_trait(zome.traits@, trait_name@),
            r matches Some(t) ==> exists|i: int|
                #![auto]
                first_trait_at(zome.traits@, trait_name@, i) && *t == zome.traits@[i].fns,
    {
        let key: String = trait_name.to_owned();
        let mut i: usize = 0;
        while i < zome.traits.len()
            invariant
                i <= zome.traits@.len(),
                key@ == trait_name@,
                forall|j: int| 0 <= j < i ==> zome.traits@[j].name@ != trait_name@,
            decreases zome.traits@.len() - i,
        {
            if zome.traits[i].name == key {
                proof {
                    assert(first_trait_at(zome.traits@, trait_name@, i as int));
                }
                return Some(&zome.traits[i].fns);
            }
            i = i + 1;
        }
        None
    }

    /// The function declaration of the given name in the given zome, if any.
    pub fn get_function<'a>(&'a self, zome: &'a Zome, function_name: &str) -> (r: Option<
        &'a FnDeclaration,
    >)
        ensures
            r is Some <==> has_fn_decl(zome.fn_declarations@, function_name@),
            r matches Some(f) ==> exists|i: int|
                #![auto]
                first_fn_decl_at(zome.fn_declarations@, function_name@, i) && *f
                    == zome.fn_declarations@[i],
    {
        let key: String = function_name.to_owned();
        let mut i: usize = 0;
        while i < zome.fn_declarations.len()
            invariant
                i <= zome.fn_declarations@.len(),
                key@ == function_name@,
                forall|j: int| 0 <= j < i ==> zome.fn_declarations@[j].name@ != function_name@,
            decreases zome.fn_declarations@.len() - i,
        {
            if zome.fn_declarations[i].name == key {
                proof {
                    assert(first_fn_decl_at(zome.fn_declarations@, function_name@, i as int));
                }
                return Some(&zome.fn_declarations[i]);
            }
            i = i + 1;
        }
        None
    }

    /// A function declaration looked up by zome name and function name, with
    /// an error naming whichever of the two was missing.
    pub fn get_function_with_zome_name(&self, zome_name: &str, fn_name: &str) -> (r: Result<
        &FnDeclaration,
        DnaError,
    >)
        ensures
            r is Ok <==> has_zome(self.zomes@, zome_name@) && exists|i: int|
                #![auto]
                first_zome_at(self.zomes@, zome_name@, i) && has_fn_decl(
                    self.zomes@[i].zome.fn_declarations@,
                    fn_name@,
                ),
            r matches Ok(f) ==> exists|i: int, k: int|
                #![auto]
                first_zome_at(self.zomes@, zome_name@, i) && first_fn_decl_at(
                    self.zomes@[i].zome.fn_declarations@,
                    fn_name@,
                    k,
                ) && *f == self.zomes@[i].zome.fn_declarations@[k],
            r matches Err(e) ==> (if !has_zome(self.zomes@, zome_name@) {
                e matches DnaError::ZomeNotFound(m) && m@ == "Zome '"@ + zome_name@
                    + "' not found"@
            } else {
                e matches DnaError::ZomeFunctionNotFound(m) && m@ == "Zome function '"@
                    + fn_name@ + "' not found in Zome '"@ + zome_name@ + "'"@ && exists|i: int|
                    #![auto]
                    first_zome_at(self.zomes@, zome_name@, i) && !has_fn_decl(
                        self.zomes@[i].zome.fn_declarations@,
                        fn_name@,
                    )
            }),
    {
        let zome = match self.get_zome(zome_name) {
            Ok(z) => z,
            Err(e) => {
                return Err(e);
            },
        };
        let fn_decl = self.get_function(zome, fn_name);
        match fn_decl {
            Some(f) => Ok(f),
            None => Err(
                DnaError::ZomeFunctionNotFound(
                    String::from_str("Zome function '").concat(fn_name).concat(
                        "' not found in Zome '",
                    ).concat(zome_name).concat("'"),
                ),
            ),
        }
    }

    /// The bytecode of the zome of the given name, if that zome exists.
    pub fn get_wasm_from_zome_name(&self, zome_name: &str) -> (r: Option<&DnaWasm>)
        ensures
            r is Some <==> has_zome(self.zomes@, zome_name@),
            r matches Some(w) ==> exists|i: int|
                #![auto]
                first_zome_at(self.zomes@, zome_name@, i) && *w == self.zomes@[i].zome.code,
    {
        match self.get_zome(zome_name) {
            Ok(z) => Some(&z.code),
            Err(_) => None,
        }
    }

    /// A trait's functions looked up by zome name and trait name, with an
    /// error naming whichever of the two was missing.
    pub fn get_trait_fns_with_zome_name(&self, zome_name: &str, trait_name: &str) -> (r: Result<
        &TraitFns,
        DnaError,
    >)
        ensures
            r is Ok <==> has_zome(self.zomes@, zome_name@) && exists|i: int|
                #![auto]
                first_zome_at(self.zomes@, zome_name@, i) && has_trait(
                    self.zomes@[i].zome.traits@,
                    trait_name@,
                ),
            r matches Ok(t) ==> exists|i: int, k: int|
                #![auto]
                first_zome_at(self.zomes@, zome_name@, i) && first_trait_at(
                    self.zomes@[i].zome.traits@,
                    trait_name@,
                    k,
                ) && *t == self.zomes@[i].zome.traits@[k].fns,
            r matches Err(e) ==> (if !has_zome(self.zomes@, zome_name@) {
                e matches DnaError::ZomeNotFound(m) && m@ == "Zome '"@ + zome_name@
                    + "' not found"@
            } else {
                e matches DnaError::TraitNotFound(m) && m@ == "Trait '"@ + trait_name@
                    + "' not found in Zome '"@ + zome_name@ + "'"@ && exists|i: int|
                    #![auto]
                    first_zome_at(self.zomes@, zome_name@, i) && !has_trait(
                        self.zomes@[i].zome.traits@,
                        trait_name@,
                    )
            }),
    {
        let zome = match self.get_zome(zome_name) {
            Ok(z) => z,
            Err(e) => {
                return Err(e);
            },
        };
        let trait_fns = self.get_trait(zome, trait_name);
        match trait_fns {
            Some(t) => Ok(t),
            None => Err(
                DnaError::TraitNotFound(
                    String::from_str("Trait '").concat(trait_name).concat(
                        "' not found in Zome '",
                    ).concat(zome_name).concat("'"),
                ),
            ),
        }
    }

    /// The name of the first zome holding the given application entry type.
    pub fn get_zome_name_for_app_entry_type(&self, app_entry_type: &String) -> (r: Option<String>)
        requires
            valid_app_entry_name(app_entry_type@),
        ensures
            r is Some <==> exists|i: int|
                0 <= i < self.zomes@.len() && zome_has_entry_type(
                    self.zomes@[i].zome,
                    app_entry_type@,
                ),
            r matches Some(n) ==> exists|i: int|
                #![auto]
                0 <= i < self.zomes@.len() && zome_has_entry_type(
                    self.zomes@[i].zome,
                    app_entry_type@,
                ) && n@ == self.zomes@[i].name@ && forall|j: int|
                    0 <= j < i ==> !zome_has_entry_type(self.zomes@[j].zome, app_entry_type@),
    {
        let mut i: usize = 0;
        while i < self.zomes.len()
            invariant
                i <= self.zomes@.len(),
                forall|j: int|
                    0 <= j < i ==> !zome_has_entry_type(self.zomes@[j].zome, app_entry_type@),
            decreases self.zomes@.len() - i,
        {
            if self.zomes[i].zome.has_entry_type(app_entry_type) {
                return Some(self.zomes[i].name.clone());
            }
            i = i + 1;
        }
        None
    }

    /// The definition of the given application entry type: the first row
    /// of that name in the first zome defining the type.
    pub fn get_entry_type_def(&self, entry_type_name: &String) -> (r: Option<&EntryTypeDef>)
        requires
            valid_app_entry_name(entry_type_name@),
        ensures
            r is Some <==> exists|i: int|
                0 <= i < self.zomes@.len() && zome_has_entry_type(
                    self.zomes@[i].zome,
                    entry_type_name@,
                ),
            r matches Some(d) ==> exists|i: int, k: int|
                #![auto]
                0 <= i < self.zomes@.len() && zome_has_entry_type(
                    self.zomes@[i].zome,
                    entry_type_name@,
                ) && (forall|j: int|
                    0 <= j < i ==> !zome_has_entry_type(self.zomes@[j].zome, entry_type_name@))
                    && first_entry_type_at(
                    self.zomes@[i].zome.entry_types@,
                    entry_type_name@,
                    k,
                ) && *d == self.zomes@[i].zome.entry_types@[k].def,
    {
        let mut i: usize = 0;
        while i < self.zomes.len()
            invariant
                i <= self.zomes@.len(),
                forall|j: int|
                    0 <= j < i ==> !zome_has_entry_type(self.zomes@[j].zome, entry_type_name@),
            decreases self.zomes@.len() - i,
        {
            let zome = &self.zomes[i].zome;
            let mut k: usize = 0;
            while k < zome.entry_types.len()
                invariant
                    k <= zome.entry_types@.len(),
                    zome == &self.zomes@[i as int].zome,
                    i < self.zomes@.len(),
                    forall|j: int| 0 <= j < k ==> zome.entry_types@[j].name@ != entry_type_name@,
                    forall|j: int|
                        0 <= j < i ==> !zome_has_entry_type(self.zomes@[j].zome, entry_type_name@),
                decreases zome.entry_types@.len() - k,
            {
                if zome.entry_types[k].name == *entry_type_name {
                    proof {
                        assert(first_entry_type_at(
                            self.zomes@[i as int].zome.entry_types@,
                            entry_type_name@,
                            k as int,
                        ));
                    }
                    return Some(&zome.entry_types[k].def);
                }
                k = k + 1;
            }
            i = i + 1;
        }
        None
    }

    /// Every required bridge of every zome, in zome order.
    pub fn get_required_bridges(&self) -> (r: Vec<Bridge>)
        ensures
            r@ == required_bridges_of(self.zomes@),
    {
        let mut out: Vec<Bridge> = Vec::new();
        let mut i: usize = 0;
        while i < self.zomes.len()
            invariant
                i <= self.zomes@.len(),
                out@ == required_bridges_of(self.zomes@.subrange(0, i as int)),
            decreases self.zomes@.len() - i,
        {
            proof {
                assert(self.zomes@.subrange(0, (i + 1) as int).drop_last() =~= self
                    .zomes@.subrange(0, i as int));
            }
            let mut more = self.zomes[i].zome.get_required_bridges();
            let mut k: usize = 0;
            proof {
                assert(out@ + more@.subrange(0, 0) =~= out@);
            }
            while k < more.len()
                invariant
                    k <= more@.len(),
                    out@ == required_bridges_of(self.zomes@.subrange(0, i as int))
                        + more@.subrange(0, k as int),
                    more@ == required_of(self.zomes@[i as int].zome.bridges@),
                    i < self.zomes@.len(),
                decreases more@.len() - k,
            {
                let b = more[k].clone();
                out.push(b);
                proof {
                    assert(out@ =~= required_bridges_of(self.zomes@.subrange(0, i as int))
                        + more@.subrange(0, (k + 1) as int));
                }
                k = k + 1;
            }
            proof {
                assert(more@.subrange(0, more@.len() as int) =~= more@);
            }
            i = i + 1;
        }
        proof {
            assert(self.zomes@.subrange(0, self.zomes@.len() as int) =~= self.zomes@);
        }
        out
    }

    /// The SHA2-256 multihash of this manifest's canonical serialization.
    pub fn multihash(&self) -> (r: Result<Vec<u8>, HolochainError>)
        ensures
            r matches Ok(b) && b@ == multihash_sha2_256_of(canon_of_dna(*self)),
    {
        let bytes = self.canonical_bytes();
        Ok(multihash_sha2_256(&bytes))
    }

    /// The address of this manifest: derived from its canonical
    /// serialization.
    pub fn address(&self) -> (r: Address)
        ensures
            r@ == address_text_of(canon_of_dna(*self)),
    {
        let bytes = self.canonical_bytes();
        address_for_bytes(&bytes)
    }

    /// This manifest's canonical serialization.
    pub fn canonical_bytes(&self) -> (r: Vec<u8>)
        ensures
            r@ == canon_of_dna(*self),
    {
        let mut out: Vec<u8> = Vec::new();
        proof {
            assert(out@ =~= Seq::<u8>::empty());
        }
        append_canon_dna(&mut out, self);
        proof {
            assert(out@ =~= canon_of_dna(*self));
        }
        out
    }
}

// --- pretty rendering ----------------------------------------------------

/// A quoted, escaped string value.
pub open spec fn quoted(s: Seq<char>) -> Seq<u8> {
    seq![34u8] + crate::signing::json_escaped(utf8_of(s)) + seq![34u8]
}

/// A comma-separated list of quoted names.
pub open spec fn quoted_list(names: Seq<Seq<char>>) -> Seq<u8>
    decreases names.len(),
{
    if names.len() == 0 {
        Seq::empty()
    } else if names.len() == 1 {
        quoted(names[0])
    } else {
        quoted_list(names.drop_last()) + utf8_of(", "@) + quoted(names.last())
    }
}

/// The names of a zome's entry types, in order.
pub open spec fn entry_type_names(rs: Seq<EntryTypeRow>) -> Seq<Seq<char>> {
    rs.map(|i: int, r: EntryTypeRow| r.name@)
}

/// The names of a zome's traits, in order.
pub open spec fn trait_names(rs: Seq<TraitRow>) -> Seq<Seq<char>> {
    rs.map(|i: int, r: TraitRow| r.name@)
}

/// The names of a zome's declared functions, in order.
pub open spec fn fn_decl_names(rs: Seq<FnDeclaration>) -> Seq<Seq<char>> {
    rs.map(|i: int, r: FnDeclaration| r.name@)
}

/// The pretty rendering of one zome: its description and the names of its
/// entry types, traits and declared functions.  Bytecode is not rendered.
pub open spec fn pretty_of_zome(z: Zome) -> Seq<u8> {
    utf8_of("{\n      \"description\": "@) + quoted(z.description@) + utf8_of(
        ",\n      \"entry_types\": ["@,
    ) + quoted_list(entry_type_names(z.entry_types@)) + utf8_of("],\n      \"traits\": ["@)
        + quoted_list(trait_names(z.traits@)) + utf8_of("],\n      \"fn_declarations\": ["@)
        + quoted_list(fn_decl_names(z.fn_declarations@)) + utf8_of("]\n    }"@)
}

/// The pretty rendering of the zome table.
pub open spec fn pretty_of_zomes(zs: Seq<ZomeEntry>) -> Seq<u8>
    decreases zs.len(),
{
    if zs.len() == 0 {
        Seq::empty()
    } else if zs.len() == 1 {
        utf8_of("\n    "@) + quoted(zs[0].name@) + utf8_of(": "@) + pretty_of_zome(zs[0].zome)
    } else {
        pretty_of_zomes(zs.drop_last()) + utf8_of(",\n    "@) + quoted(zs.last().name@)
            + utf8_of(": "@) + pretty_of_zome(zs.last().zome)
    }
}

/// The pretty rendering of a whole manifest.  The properties field is raw
/// serialized text and is inserted as it stands.
pub open spec fn pretty_of_dna(d: Dna) -> Seq<u8> {
    utf8_of("{\n  \"name\": "@) + quoted(d.name@) + utf8_of(",\n  \"description\": "@) + quoted(
        d.description@,
    ) + utf8_of(",\n  \"version\": "@) + quoted(d.version@) + utf8_of(",\n  \"uuid\": "@)
        + quoted(d.uuid@) + utf8_of(",\n  \"dna_spec_version\": "@) + quoted(d.dna_spec_version@)
        + utf8_of(",\n  \"properties\": "@) + utf8_of(d.properties@) + utf8_of(
        ",\n  \"zomes\": {"@,
    ) + pretty_of_zomes(d.zomes@) + (if d.zomes@.len() == 0 {
        utf8_of("}\n}"@)
    } else {
        utf8_of("\n  }\n}"@)
    })
}

/// Append a quoted, escaped string value.
fn append_quoted(out: &mut Vec<u8>, s: &String)
    ensures
        final(out)@ == old(out)@ + quoted(s@),
{
    out.push(34u8);
    crate::signing::append_escaped_text(out, s);
    out.push(34u8);
    proof {
        assert(out@ =~= old(out)@ + quoted(s@));
    }
}

/// Append a comma-separated list of quoted names; `names` carries the
/// views of the strings in `items`.
fn append_name_list(out: &mut Vec<u8>, items: &Vec<String>, Ghost(names): Ghost<Seq<Seq<char>>>)
    requires
        names.len() == items@.len(),
        forall|i: int| 0 <= i < names.len() ==> names[i] == items@[i]@,
    ensures
        final(out)@ == old(out)@ + quoted_list(names),
{
    let mut i: usize = 0;
    while i < items.len()
        invariant
            i <= items@.len(),
            names.len() == items@.len(),
            forall|j: int| 0 <= j < names.len() ==> names[j] == items@[j]@,
            out@ == old(out)@ + quoted_list(names.subrange(0, i as int)),
        decreases items@.len() - i,
    {
        proof {
            assert(names.subrange(0, (i + 1) as int).drop_last() =~= names.subrange(0, i as int));
            assert(names.subrange(0, (i + 1) as int).last() == names[i as int]);
            if i > 0 {
                assert(names.subrange(0, (i + 1) as int).len() > 1);
            }
        }
        if i > 0 {
            append_bytes(out, ", ".as_bytes());
        }
        append_quoted(out, &items[i]);
        proof {
            if i == 0 {
                assert(names.subrange(0, 1) =~= seq![names[0]]);
                assert(quoted_list(names.subrange(0, 1)) == quoted(names[0]));
            }
            assert(out@ =~= old(out)@ + quoted_list(names.subrange(0, (i + 1) as int)));
        }
        i = i + 1;
    }
    proof {
        assert(names.subrange(0, names.len() as int) =~= names);
    }
}

impl Dna {
    /// Render this manifest as indented, human-readable serialized text;
    /// errs only if the rendering is not plain ASCII.
    #[verifier::rlimit(50)]
    pub fn to_json_pretty(&self) -> (r: Result<String, HolochainError>)
        ensures
            r matches Ok(s) ==> s@ == crate::hashing::ascii_chars_of(pretty_of_dna(*self))
                && crate::hashing::all_ascii_bytes(pretty_of_dna(*self)),
            r is Err ==> !crate::hashing::all_ascii_bytes(pretty_of_dna(*self)),
    {
        let mut out: Vec<u8> = Vec::new();
        proof {
            assert(out@ =~= Seq::<u8>::empty());
        }
        append_bytes(&mut out, "{\n  \"name\": ".as_bytes());
        append_quoted(&mut out, &self.name);
        append_bytes(&mut out, ",\n  \"description\": ".as_bytes());
        append_quoted(&mut out, &self.description);
        append_bytes(&mut out, ",\n  \"version\": ".as_bytes());
        append_quoted(&mut out, &self.version);
        append_bytes(&mut out, ",\n  \"uuid\": ".as_bytes());
        append_quoted(&mut out, &self.uuid);
        append_bytes(&mut out, ",\n  \"dna_spec_version\": ".as_bytes());
        append_quoted(&mut out, &self.dna_spec_version);
        append_bytes(&mut out, ",\n  \"properties\": ".as_bytes());
        append_bytes(&mut out, self.properties.as_str().as_bytes());
        append_bytes(&mut out, ",\n  \"zomes\": {".as_bytes());
        let ghost mid = out@;
        let mut i: usize = 0;
        while i < self.zomes.len()
            invariant
                i <= self.zomes@.len(),
                out@ == mid + pretty_of_zomes(self.zomes@.subrange(0, i as int)),
            decreases self.zomes@.len() - i,
        {
            proof {
                assert(self.zomes@.subrange(0, (i + 1) as int).drop_last() =~= self
                    .zomes@.subrange(0, i as int));
                assert(self.zomes@.subrange(0, (i + 1) as int).last() == self.zomes@[i as int]);
                assert(self.zomes@.subrange(0, (i + 1) as int)[0] == self.zomes@[0]);
            }
            if i == 0 {
                append_bytes(&mut out, "\n    ".as_bytes());
            } else {
                append_bytes(&mut out, ",\n    ".as_bytes());
            }
            append_quoted(&mut out, &self.zomes[i].name);
            append_bytes(&mut out, ": ".as_bytes());
            append_pretty_zome(&mut out, &self.zomes[i].zome);
            proof {
                assert(out@ =~= mid + pretty_of_zomes(self.zomes@.subrange(0, (i + 1) as int)));
            }
            i = i + 1;
        }
        proof {
            assert(self.zomes@.subrange(0, self.zomes@.len() as int) =~= self.zomes@);
        }
        if self.zomes.len() == 0 {
            append_bytes(&mut out, "}\n}".as_bytes());
        } else {
            append_bytes(&mut out, "\n  }\n}".as_bytes());
        }
        proof {
            assert(out@ =~= pretty_of_dna(*self));
        }
        if crate::hashing::bytes_are_ascii(&out) {
            Ok(crate::hashing::string_from_ascii(out))
        } else {
            Err(
                crate::error::HolochainError::SerializationError(
                    "manifest text is not ASCII".to_owned(),
                ),
            )
        }
    }
}

/// Append the pretty rendering of one zome.
#[verifier::rlimit(50)]
fn append_pretty_zome(out: &mut Vec<u8>, z: &Zome)
    ensures
        final(out)@ == old(out)@ + pretty_of_zome(*z),
{
    append_bytes(out, "{\n      \"description\": ".as_bytes());
    append_quoted(out, &z.description);
    append_bytes(out, ",\n      \"entry_types\": [".as_bytes());
    let mut type_names: Vec<String> = Vec::new();
    let mut i: usize = 0;
    while i < z.entry_types.len()
        invariant
            i <= z.entry_types@.len(),
            type_names@.len() == i,
            forall|j: int| 0 <= j < i ==> type_names@[j] == z.entry_types@[j].name,
        decreases z.entry_types@.len() - i,
    {
        type_names.push(z.entry_types[i].name.clone());
        i = i + 1;
    }
    append_name_list(out, &type_names, Ghost(entry_type_names(z.entry_types@)));
    append_bytes(out, "],\n      \"traits\": [".as_bytes());
    let mut t_names: Vec<String> = Vec::new();
    let mut i: usize = 0;
    while i < z.traits.len()
        invariant
            i <= z.traits@.len(),
            t_names@.len() == i,
            forall|j: int| 0 <= j < i ==> t_names@[j] == z.traits@[j].name,
        decreases z.traits@.len() - i,
    {
        t_names.push(z.traits[i].name.clone());
        i = i + 1;
    }
    append_name_list(out, &t_names, Ghost(trait_names(z.traits@)));
    append_bytes(out, "],\n      \"fn_declarations\": [".as_bytes());
    let mut f_names: Vec<String> = Vec::new();
    let mut i: usize = 0;
    while i < z.fn_declarations.len()
        invariant
            i <= z.fn_declarations@.len(),
            f_names@.len() == i,
            forall|j: int| 0 <= j < i ==> f_names@[j] == z.fn_declarations@[j].name,
        decreases z.fn_declarations@.len() - i,
    {
        f_names.push(z.fn_declarations[i].name.clone());
        i = i + 1;
    }
    append_name_list(out, &f_names, Ghost(fn_decl_names(z.fn_declarations@)));
    append_bytes(out, "]\n    }".as_bytes());
    proof {
        assert(out@ =~= old(out)@ + pretty_of_zome(*z));
    }
}

/// The required bridges of every zome of `zs`, in order.
pub open spec fn required_bridges_of(zs: Seq<ZomeEntry>) -> Seq<Bridge>
    decreases zs.len(),
{
    if zs.len() == 0 {
        Seq::empty()
    } else {
        required_bridges_of(zs.drop_last()) + required_of(zs.last().zome.bridges@)
    }
}

// --- canonical serialization --------------------------------------------

/// The canonical form of a validation rule.
pub open spec fn canon_of_rule(r: ValidationRule) -> Seq<u8> {
    match r {
        ValidationRule::Accept => seq![0u8],
        ValidationRule::Reject(m) => seq![1u8] + canon_str(utf8_of(m@)),
    }
}

/// Append the canonical form of a validation rule.
pub fn append_canon_rule(out: &mut Vec<u8>, r: &ValidationRule)
    ensures
        final(out)@ == old(out)@ + canon_of_rule(*r),
{
    match r {
        ValidationRule::Accept => {
            out.push(0u8);
            proof {
                assert(out@ =~= old(out)@ + canon_of_rule(*r));
            }
        },
        ValidationRule::Reject(m) => {
            out.push(1u8);
            append_canon_str(out, m);
            proof {
                assert(out@ =~= old(out)@ + canon_of_rule(*r));
            }
        },
    }
}

/// The canonical form of one entry-type row.
pub open spec fn canon_of_entry_type_row(r: EntryTypeRow) -> Seq<u8> {
    canon_str(utf8_of(r.name@)) + canon_str(utf8_of(r.def.description@)) + (match r
        .def
        .sharing {
        Sharing::Public => seq![0u8],
        Sharing::Private => seq![1u8],
    })
}

/// The canonical form of a sequence of entry-type rows.
pub open spec fn canon_of_entry_types(rs: Seq<EntryTypeRow>) -> Seq<u8>
    decreases rs.len(),
{
    if rs.len() == 0 {
        Seq::empty()
    } else {
        canon_of_entry_types(rs.drop_last()) + canon_of_entry_type_row(rs.last())
    }
}

/// The canonical form of a sequence of strings.
pub open spec fn canon_of_strings(ss: Seq<String>) -> Seq<u8>
    decreases ss.len(),
{
    if ss.len() == 0 {
        Seq::empty()
    } else {
        canon_of_strings(ss.drop_last()) + canon_str(utf8_of(ss.last()@))
    }
}

/// The canonical form of one trait row.
pub open spec fn canon_of_trait_row(r: TraitRow) -> Seq<u8> {
    canon_str(utf8_of(r.name@)) + be64_of(r.fns.functions@.len() as u64) + canon_of_strings(
        r.fns.functions@,
    )
}

/// The canonical form of a sequence of trait rows.
pub open spec fn canon_of_traits(rs: Seq<TraitRow>) -> Seq<u8>
    decreases rs.len(),
{
    if rs.len() == 0 {
        Seq::empty()
    } else {
        canon_of_traits(rs.drop_last()) + canon_of_trait_row(rs.last())
    }
}

/// The canonical form of one function parameter.
pub open spec fn canon_of_param(p: FnParameter) -> Seq<u8> {
    canon_str(utf8_of(p.name@)) + canon_str(utf8_of(p.parameter_type@))
}

/// The canonical form of a sequence of function parameters.
pub open spec fn canon_of_params(ps: Seq<FnParameter>) -> Seq<u8>
    decreases ps.len(),
{
    if ps.len() == 0 {
        Seq::empty()
    } else {
        canon_of_params(ps.drop_last()) + canon_of_param(ps.last())
    }
}

/// The canonical form of one function declaration.
pub open spec fn canon_of_fn_decl(f: FnDeclaration) -> Seq<u8> {
    canon_str(utf8_of(f.name@)) + be64_of(f.inputs@.len() as u64) + canon_of_params(f.inputs@)
        + be64_of(f.outputs@.len() as u64) + canon_of_params(f.outputs@)
}

/// The canonical form of a sequence of function declarations.
pub open spec fn canon_of_fn_decls(fs: Seq<FnDeclaration>) -> Seq<u8>
    decreases fs.len(),
{
    if fs.len() == 0 {
        Seq::empty()
    } else {
        canon_of_fn_decls(fs.drop_last()) + canon_of_fn_decl(fs.last())
    }
}

/// The canonical form of one bridge.
pub open spec fn canon_of_bridge(b: Bridge) -> Seq<u8> {
    (if b.required {
        seq![1u8]
    } else {
        seq![0u8]
    }) + canon_str(utf8_of(b.handle@))
}

/// The canonical form of a sequence of bridges.
pub open spec fn canon_of_bridges(bs: Seq<Bridge>) -> Seq<u8>
    decreases bs.len(),
{
    if bs.len() == 0 {
        Seq::empty()
    } else {
        canon_of_bridges(bs.drop_last()) + canon_of_bridge(bs.last())
    }
}

/// The first section of a zome's canonical form: description and entry
/// types.
pub open spec fn canon_zome_types(z: Zome) -> Seq<u8> {
    canon_str(utf8_of(z.description@)) + be64_of(z.entry_types@.len() as u64)
        + canon_of_entry_types(z.entry_types@)
}

/// The trait part of a zome's canonical form.
pub open spec fn canon_zome_traits(z: Zome) -> Seq<u8> {
    be64_of(z.traits@.len() as u64) + canon_of_traits(z.traits@)
}

/// The function-declaration part of a zome's canonical form.
pub open spec fn canon_zome_decls(z: Zome) -> Seq<u8> {
    be64_of(z.fn_declarations@.len() as u64) + canon_of_fn_decls(z.fn_declarations@)
}

/// The second section of a zome's canonical form: traits and function
/// declarations.
pub open spec fn canon_zome_fns(z: Zome) -> Seq<u8> {
    canon_zome_traits(z) + canon_zome_decls(z)
}

/// The third section of a zome's canonical form: bytecode, validation rule
/// and bridges.
pub open spec fn canon_zome_code(z: Zome) -> Seq<u8> {
    canon_str(z.code.code@) + canon_of_rule(z.code.validation) + be64_of(z.bridges@.len() as u64)
        + canon_of_bridges(z.bridges@)
}

/// The canonical form of one zome.
#[verifier::opaque]
pub open spec fn canon_of_zome(z: Zome) -> Seq<u8> {
    canon_zome_types(z) + canon_zome_fns(z) + canon_zome_code(z)
}

/// The canonical form of one named zome.
pub open spec fn canon_of_zome_entry(z: ZomeEntry) -> Seq<u8> {
    canon_str(utf8_of(z.name@)) + canon_of_zome(z.zome)
}

/// The canonical form of a sequence of named zomes.
pub open spec fn canon_of_zomes(zs: Seq<ZomeEntry>) -> Seq<u8>
    decreases zs.len(),
{
    if zs.len() == 0 {
        Seq::empty()
    } else {
        canon_of_zomes(zs.drop_last()) + canon_of_zome_entry(zs.last())
    }
}

/// The header of a manifest's canonical form: every scalar field.
pub open spec fn canon_dna_header(d: Dna) -> Seq<u8> {
    canon_str(utf8_of(d.name@)) + canon_str(utf8_of(d.description@)) + canon_str(
        utf8_of(d.version@),
    ) + canon_str(utf8_of(d.uuid@)) + canon_str(utf8_of(d.dna_spec_version@)) + canon_str(
        utf8_of(d.properties@),
    )
}

/// The canonical serialization of a manifest.
#[verifier::opaque]
pub open spec fn canon_of_dna(d: Dna) -> Seq<u8> {
    canon_dna_header(d) + be64_of(d.zomes@.len() as u64) + canon_of_zomes(d.zomes@)
}

// --- canonical serialization respects observable equality ---------------

/// Observably equal trait rows serialize identically.
proof fn lemma_canon_traits_congruence(a: Seq<TraitRow>, b: Seq<TraitRow>)
    requires
        trait_rows_eqv(a, b),
    ensures
        canon_of_traits(a) == canon_of_traits(b),
    decreases a.len(),
{
    if a.len() > 0 {
        assert forall|i: int| 0 <= i < a.drop_last().len() implies trait_row_eqv(
            a.drop_last()[i],
            b.drop_last()[i],
        ) by {
            assert(a.drop_last()[i] == a[i]);
            assert(b.drop_last()[i] == b[i]);
        }
        lemma_canon_traits_congruence(a.drop_last(), b.drop_last());
        assert(trait_row_eqv(a.last(), b.last()));
        assert(canon_of_trait_row(a.last()) == canon_of_trait_row(b.last()));
    }
}

/// Observably equal function declarations serialize identically.
proof fn lemma_canon_fn_decls_congruence(a: Seq<FnDeclaration>, b: Seq<FnDeclaration>)
    requires
        fn_decls_eqv(a, b),
    ensures
        canon_of_fn_decls(a) == canon_of_fn_decls(b),
    decreases a.len(),
{
    if a.len() > 0 {
        assert forall|i: int| 0 <= i < a.drop_last().len() implies fn_decl_eqv(
            a.drop_last()[i],
            b.drop_last()[i],
        ) by {
            assert(a.drop_last()[i] == a[i]);
            assert(b.drop_last()[i] == b[i]);
        }
        lemma_canon_fn_decls_congruence(a.drop_last(), b.drop_last());
        assert(fn_decl_eqv(a.last(), b.last()));
        assert(canon_of_fn_decl(a.last()) == canon_of_fn_decl(b.last()));
    }
}

/// Observably equal zomes serialize identically.
proof fn lemma_canon_zome_congruence(a: Zome, b: Zome)
    requires
        zome_eqv(a, b),
    ensures
        canon_of_zome(a) == canon_of_zome(b),
{
    reveal(canon_of_zome);
    lemma_canon_traits_congruence(a.traits@, b.traits@);
    lemma_canon_fn_decls_congruence(a.fn_declarations@, b.fn_declarations@);
}

/// Observably equal zome tables serialize identically.
proof fn lemma_canon_zomes_congruence(a: Seq<ZomeEntry>, b: Seq<ZomeEntry>)
    requires
        zome_entries_eqv(a, b),
    ensures
        canon_of_zomes(a) == canon_of_zomes(b),
    decreases a.len(),
{
    if a.len() > 0 {
        assert forall|i: int| 0 <= i < a.drop_last().len() implies zome_entry_eqv(
            a.drop_last()[i],
            b.drop_last()[i],
        ) by {
            assert(a.drop_last()[i] == a[i]);
            assert(b.drop_last()[i] == b[i]);
        }
        lemma_canon_zomes_congruence(a.drop_last(), b.drop_last());
        assert(zome_entry_eqv(a.last(), b.last()));
        lemma_canon_zome_congruence(a.last().zome, b.last().zome);
        assert(canon_of_zome_entry(a.last()) == canon_of_zome_entry(b.last()));
    }
}

/// Observably equal manifests serialize identically, so they share one
/// address.
pub proof fn lemma_canon_dna_congruence(a: Dna, b: Dna)
    requires
        dna_eqv(a, b),
    ensures
        canon_of_dna(a) == canon_of_dna(b),
{
    reveal(canon_of_dna);
    lemma_canon_zomes_congruence(a.zomes@, b.zomes@);
}

/// Append the canonical form of an entry-type row.
fn append_canon_entry_type_row(out: &mut Vec<u8>, r: &EntryTypeRow)
    ensures
        final(out)@ == old(out)@ + canon_of_entry_type_row(*r),
{
    append_canon_str(out, &r.name);
    append_canon_str(out, &r.def.description);
    match r.def.sharing {
        Sharing::Public => out.push(0u8),
        Sharing::Private => out.push(1u8),
    }
    proof {
        assert(out@ =~= old(out)@ + canon_of_entry_type_row(*r));
    }
}

/// Append the canonical form of a trait row.
fn append_canon_trait_row(out: &mut Vec<u8>, r: &TraitRow)
    ensures
        final(out)@ == old(out)@ + canon_of_trait_row(*r),
{
    append_canon_str(out, &r.name);
    push_be64(out, r.fns.functions.len() as u64);
    let ghost mid = out@;
    let mut i: usize = 0;
    while i < r.fns.functions.len()
        invariant
            i <= r.fns.functions@.len(),
            out@ == mid + canon_of_strings(r.fns.functions@.subrange(0, i as int)),
        decreases r.fns.functions@.len() - i,
    {
        proof {
            assert(r.fns.functions@.subrange(0, (i + 1) as int).drop_last() =~= r
                .fns.functions@.subrange(0, i as int));
        }
        append_canon_str(out, &r.fns.functions[i]);
        i = i + 1;
    }
    proof {
        assert(r.fns.functions@.subrange(0, r.fns.functions@.len() as int) =~= r.fns.functions@);
        assert(out@ =~= old(out)@ + canon_of_trait_row(*r));
    }
}

/// Append the canonical form of a function declaration.
fn append_canon_fn_decl(out: &mut Vec<u8>, f: &FnDeclaration)
    ensures
        final(out)@ == old(out)@ + canon_of_fn_decl(*f),
{
    append_canon_str(out, &f.name);
    push_be64(out, f.inputs.len() as u64);
    let ghost mid1 = out@;
    let mut i: usize = 0;
    while i < f.inputs.len()
        invariant
            i <= f.inputs@.len(),
            out@ == mid1 + canon_of_params(f.inputs@.subrange(0, i as int)),
        decreases f.inputs@.len() - i,
    {
        proof {
            assert(f.inputs@.subrange(0, (i + 1) as int).drop_last() =~= f.inputs@.subrange(
                0,
                i as int,
            ));
        }
        append_canon_str(out, &f.inputs[i].name);
        append_canon_str(out, &f.inputs[i].parameter_type);
        proof {
            assert(out@ =~= mid1 + canon_of_params(f.inputs@.subrange(0, (i + 1) as int)));
        }
        i = i + 1;
    }
    proof {
        assert(f.inputs@.subrange(0, f.inputs@.len() as int) =~= f.inputs@);
    }
    push_be64(out, f.outputs.len() as u64);
    let ghost mid2 = out@;
    let mut k: usize = 0;
    while k < f.outputs.len()
        invariant
            k <= f.outputs@.len(),
            out@ == mid2 + canon_of_params(f.outputs@.subrange(0, k as int)),
        decreases f.outputs@.len() - k,
    {
        proof {
            assert(f.outputs@.subrange(0, (k + 1) as int).drop_last() =~= f.outputs@.subrange(
                0,
                k as int,
            ));
        }
        append_canon_str(out, &f.outputs[k].name);
        append_canon_str(out, &f.outputs[k].parameter_type);
        proof {
            assert(out@ =~= mid2 + canon_of_params(f.outputs@.subrange(0, (k + 1) as int)));
        }
        k = k + 1;
    }
    proof {
        assert(f.outputs@.subrange(0, f.outputs@.len() as int) =~= f.outputs@);
        assert(out@ =~= old(out)@ + canon_of_fn_decl(*f));
    }
}

/// Append the first section of a zome's canonical form.
fn append_canon_zome_types(out: &mut Vec<u8>, z: &Zome)
    ensures
        final(out)@ == old(out)@ + canon_zome_types(*z),
{
    append_canon_str(out, &z.description);
    push_be64(out, z.entry_types.len() as u64);
    let ghost m1 = out@;
    let mut i: usize = 0;
    while i < z.entry_types.len()
        invariant
            i <= z.entry_types@.len(),
            out@ == m1 + canon_of_entry_types(z.entry_types@.subrange(0, i as int)),
        decreases z.entry_types@.len() - i,
    {
        proof {
            assert(z.entry_types@.subrange(0, (i + 1) as int).drop_last() =~= z
                .entry_types@.subrange(0, i as int));
        }
        append_canon_entry_type_row(out, &z.entry_types[i]);
        i = i + 1;
    }
    proof {
        assert(z.entry_types@.subrange(0, z.entry_types@.len() as int) =~= z.entry_types@);
        assert(out@ =~= old(out)@ + canon_zome_types(*z));
    }
}

/// Append the trait part of a zome's canonical form.
fn append_canon_zome_traits(out: &mut Vec<u8>, z: &Zome)
    ensures
        final(out)@ == old(out)@ + canon_zome_traits(*z),
{
    push_be64(out, z.traits.len() as u64);
    let ghost m2 = out@;
    let mut i: usize = 0;
    while i < z.traits.len()
        invariant
            i <= z.traits@.len(),
            out@ == m2 + canon_of_traits(z.traits@.subrange(0, i as int)),
        decreases z.traits@.len() - i,
    {
        proof {
            assert(z.traits@.subrange(0, (i + 1) as int).drop_last() =~= z.traits@.subrange(
                0,
                i as int,
            ));
        }
        append_canon_trait_row(out, &z.traits[i]);
        i = i + 1;
    }
    proof {
        assert(z.traits@.subrange(0, z.traits@.len() as int) =~= z.traits@);
        assert(out@ =~= old(out)@ + canon_zome_traits(*z));
    }
}

/// Append the function-declaration part of a zome's canonical form.
fn append_canon_zome_decls(out: &mut Vec<u8>, z: &Zome)
    ensures
        final(out)@ == old(out)@ + canon_zome_decls(*z),
{
    push_be64(out, z.fn_declarations.len() as u64);
    let ghost m3 = out@;
    let mut i: usize = 0;
    while i < z.fn_declarations.len()
        invariant
            i <= z.fn_declarations@.len(),
            out@ == m3 + canon_of_fn_decls(z.fn_declarations@.subrange(0, i as int)),
        decreases z.fn_declarations@.len() - i,
    {
        proof {
            assert(z.fn_declarations@.subrange(0, (i + 1) as int).drop_last() =~= z
                .fn_declarations@.subrange(0, i as int));
        }
        append_canon_fn_decl(out, &z.fn_declarations[i]);
        i = i + 1;
    }
    proof {
        assert(z.fn_declarations@.subrange(0, z.fn_declarations@.len() as int) =~= z
            .fn_declarations@);
        assert(out@ =~= old(out)@ + canon_zome_decls(*z));
    }
}

/// Append the second section of a zome's canonical form.
fn append_canon_zome_fns(out: &mut Vec<u8>, z: &Zome)
    ensures
        final(out)@ == old(out)@ + canon_zome_fns(*z),
{
    append_canon_zome_traits(out, z);
    append_canon_zome_decls(out, z);
    proof {
        assert(out@ =~= old(out)@ + canon_zome_fns(*z));
    }
}

/// Append the third section of a zome's canonical form.
fn append_canon_zome_code(out: &mut Vec<u8>, z: &Zome)
    ensures
        final(out)@ == old(out)@ + canon_zome_code(*z),
{
    push_be64(out, z.code.code.len() as u64);
    append_bytes(out, z.code.code.as_slice());
    append_canon_rule(out, &z.code.validation);
    push_be64(out, z.bridges.len() as u64);
    let ghost m4 = out@;
    let mut i: usize = 0;
    while i < z.bridges.len()
        invariant
            i <= z.bridges@.len(),
            out@ == m4 + canon_of_bridges(z.bridges@.subrange(0, i as int)),
        decreases z.bridges@.len() - i,
    {
        proof {
            assert(z.bridges@.subrange(0, (i + 1) as int).drop_last() =~= z.bridges@.subrange(
                0,
                i as int,
            ));
        }
        if z.bridges[i].required {
            out.push(1u8);
        } else {
            out.push(0u8);
        }
        append_canon_str(out, &z.bridges[i].handle);
        proof {
            assert(out@ =~= m4 + canon_of_bridges(z.bridges@.subrange(0, (i + 1) as int)));
        }
        i = i + 1;
    }
    proof {
        assert(z.bridges@.subrange(0, z.bridges@.len() as int) =~= z.bridges@);
        assert(out@ =~= old(out)@ + canon_zome_code(*z));
    }
}

/// Append the canonical form of a zome.
fn append_canon_zome(out: &mut Vec<u8>, z: &Zome)
    ensures
        final(out)@ == old(out)@ + canon_of_zome(*z),
{
    append_canon_zome_types(out, z);
    append_canon_zome_fns(out, z);
    append_canon_zome_code(out, z);
    proof {
        reveal(canon_of_zome);
        assert(out@ =~= old(out)@ + canon_of_zome(*z));
    }
}

/// Append the header of a manifest's canonical form.
fn append_canon_dna_header(out: &mut Vec<u8>, d: &Dna)
    ensures
        final(out)@ == old(out)@ + canon_dna_header(*d),
{
    append_canon_str(out, &d.name);
    append_canon_str(out, &d.description);
    append_canon_str(out, &d.version);
    append_canon_str(out, &d.uuid);
    append_canon_str(out, &d.dna_spec_version);
    append_canon_str(out, &d.properties);
    proof {
        assert(out@ =~= old(out)@ + canon_dna_header(*d));
    }
}

/// Append the canonical form of a whole manifest.
#[verifier::rlimit(50)]
pub fn append_canon_dna(out: &mut Vec<u8>, d: &Dna)
    ensures
        final(out)@ == old(out)@ + canon_of_dna(*d),
{
    append_canon_dna_header(out, d);
    push_be64(out, d.zomes.len() as u64);
    let ghost m1 = out@;
    let mut i: usize = 0;
    while i < d.zomes.len()
        invariant
            i <= d.zomes@.len(),
            out@ == m1 + canon_of_zomes(d.zomes@.subrange(0, i as int)),
        decreases d.zomes@.len() - i,
    {
        proof {
            assert(d.zomes@.subrange(0, (i + 1) as int).drop_last() =~= d.zomes@.subrange(
                0,
                i as int,
            ));
        }
        append_canon_str(out, &d.zomes[i].name);
        append_canon_zome(out, &d.zomes[i].zome);
        proof {
            assert(out@ =~= m1 + canon_of_zomes(d.zomes@.subrange(0, (i + 1) as int)));
        }
        i = i + 1;
    }
    proof {
        reveal(canon_of_dna);
        assert(d.zomes@.subrange(0, d.zomes@.len() as int) =~= d.zomes@);
        assert(out@ =~= old(out)@ + canon_of_dna(*d));
    }
}

} // verus!
