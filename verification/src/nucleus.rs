//! The nucleus state slice and entry validation.
//!
//! The nucleus holds the installed application manifest.  Validation asks
//! the manifest's module for a verdict on an entry; the module's bytecode
//! runs outside this core, so its verdict is carried as data on the
//! manifest (see `ValidationRule`).

use vstd::prelude::*;
use crate::chain::ChainHeader;
use crate::dna::Dna;
use crate::dna::ValidationRule;
use crate::dna::ZomeEntry;
use crate::dna::valid_app_entry_name;
use crate::dna::zome_has_entry_type;
use crate::entry::Entry;
use crate::error::HolochainError;

verus! {

/// The nucleus state slice: the installed application manifest, if any.
#[derive(Debug, PartialEq)]
pub struct NucleusState {
    pub dna: Option<Dna>,
}

impl NucleusState {
    /// A nucleus with no application installed yet.
    pub fn new() -> (r: Self)
        ensures
            r.dna is None,
    {
        NucleusState { dna: None }
    }
}

/// In which lifecycle an entry is being validated: one's own
/// about-to-be-committed entry, or an entry received for holding.
#[derive(Clone, Copy, Debug, PartialEq, Eq, Structural)]
pub enum EntryLifecycle {
    Chain,
    Dht,
}

/// Which kind of change is being validated.
#[derive(Clone, Copy, Debug, PartialEq, Eq, Structural)]
pub enum EntryAction {
    Create,
    Modify,
    Delete,
}

/// The evidence bundle required to evaluate an entry's validation rule.
#[derive(Debug, PartialEq)]
pub struct ValidationPackage {
    /// The header of the entry under validation.
    pub chain_header: ChainHeader,
    /// The author's chain headers, where the lifecycle requires them.
    pub source_chain_headers: Option<Vec<ChainHeader>>,
}

/// Everything a validation callback is handed besides the entry itself.
#[derive(Debug, PartialEq)]
pub struct ValidationData {
    pub package: ValidationPackage,
    pub lifecycle: EntryLifecycle,
    pub action: EntryAction,
}

/// `i` is the first position of a zome defining the entry type `t`.
pub open spec fn first_zome_with_entry_type_at(zs: Seq<ZomeEntry>, t: Seq<char>, i: int) -> bool {
    &&& 0 <= i < zs.len()
    &&& zome_has_entry_type(zs[i].zome, t)
    &&& forall|j: int| 0 <= j < i ==> !zome_has_entry_type(zs[j].zome, t)
}

/// Whether the manifest accepts the entry: application records need a
/// zome that defines their type and whose module accepts; other entry
/// kinds carry their own provenance and are accepted here.
pub open spec fn entry_accepted(dna: Dna, e: Entry) -> bool {
    match e {
        Entry::App(t, _) => valid_app_entry_name(t@) && exists|i: int|
            #![auto]
            first_zome_with_entry_type_at(dna.zomes@, t@, i) && dna.zomes@[i].zome.code.validation
                is Accept,
        _ => true,
    }
}

/// Why the manifest rejects the entry, where it does: either the module's
/// own reason, or the entry's type is unknown to the manifest.
pub open spec fn rejection_is(dna: Dna, e: Entry, m: String) -> bool {
    match e {
        Entry::App(t, _) => {
            if valid_app_entry_name(t@) && (exists|i: int|
                #![auto]
                first_zome_with_entry_type_at(dna.zomes@, t@, i)) {
                exists|i: int|
                    #![auto]
                    first_zome_with_entry_type_at(dna.zomes@, t@, i) && match dna.zomes@[i]
                        .zome
                        .code
                        .validation {
                        ValidationRule::Reject(reason) => m == reason,
                        ValidationRule::Accept => false,
                    }
            } else {
                m@ == "Unknown entry type"@
            }
        },
        _ => false,
    }
}

/// Ask the module's validation callback for a verdict on `entry`.
///
/// The validation data describes lifecycle and action; in this core the
/// verdict is the one the manifest carries for the entry's type.
pub fn validate_entry(entry: &Entry, validation_data: &ValidationData, dna: &Dna) -> (r: Result<
    (),
    HolochainError,
>)
    ensures
        r is Ok <==> entry_accepted(*dna, *entry),
        r matches Err(e) ==> e matches HolochainError::ValidationFailed(m) && rejection_is(
            *dna,
            *entry,
            m,
        ),
{
    match entry {
        Entry::App(t, _) => {
            if !crate::entry::EntryType::has_valid_app_name(t) {
                return Err(HolochainError::ValidationFailed("Unknown entry type".to_owned()));
            }
            let mut i: usize = 0;
            while i < dna.zomes.len()
                invariant
                    i <= dna.zomes@.len(),
                    *entry is App,
                    entry->App_0 == *t,
                    valid_app_entry_name(t@),
                    forall|j: int| 0 <= j < i ==> !zome_has_entry_type(dna.zomes@[j].zome, t@),
                decreases dna.zomes@.len() - i,
            {
                if dna.zomes[i].zome.has_entry_type(t) {
                    proof {
                        assert(first_zome_with_entry_type_at(dna.zomes@, t@, i as int));
                    }
                    match &dna.zomes[i].zome.code.validation {
                        ValidationRule::Accept => {
                            return Ok(());
                        },
                        ValidationRule::Reject(reason) => {
                            return Err(HolochainError::ValidationFailed(reason.clone()));
                        },
                    }
                }
                i = i + 1;
            }
            Err(HolochainError::ValidationFailed("Unknown entry type".to_owned()))
        },
        _ => Ok(()),
    }
}

} // verus!
