//! The network bridge: translates inbound peer messages into workflow
//! invocations.
//!
//! Inbound processing is fire-and-forget: a failing workflow is swallowed
//! here (the transport layer carries no negative acknowledgment), and the
//! state is then left exactly as it was.  Lifecycle-status and
//! lifecycle-link metadata messages are accepted but deliberately not yet
//! acted upon.

use vstd::prelude::*;
use crate::action::Action;
use crate::action::ActionWrapper;
use crate::chain::EntryWithHeader;
use crate::hashing::Address;
use crate::hashing::text_eq;
use crate::instance::Instance;
use crate::nucleus::ValidationPackage;
use crate::nucleus::entry_accepted;
use crate::state::reduce_rel;
use crate::workflows::hold_entry_workflow;
use crate::workflows::hold_link_workflow;
use crate::workflows::remove_link_workflow;

verus! {

/// An inbound request to hold an entry.
#[derive(Debug, PartialEq)]
pub struct EntryData {
    /// The address the sender claims for the entry.
    pub entry_address: Address,
    /// The entry with its provenance.
    pub entry_content: EntryWithHeader,
}

/// An inbound request to hold metadata for an entry.
#[derive(Debug, PartialEq)]
pub struct DhtMetaData {
    /// The entry the metadata is about.
    pub entry_address: Address,
    /// Which kind of metadata this is.
    pub attribute: String,
    /// The metadata payloads, each with provenance.
    pub content_list: Vec<EntryWithHeader>,
}

/// The network requests us to store (hold) the given entry.  A failure of
/// the hold workflow is logged by callers and otherwise swallowed; the
/// sender is not notified.
pub fn handle_store_entry(
    dht_data: EntryData,
    maybe_validation_package: Option<ValidationPackage>,
    instance: &mut Instance,
)
    requires
        old(instance).wf(),
        old(instance).next_id < u64::MAX,
        old(instance).state.dht.meta.rows@.len() + 2 <= u64::MAX,
    ensures
        final(instance).wf(),
        final(instance).context == old(instance).context,
        (maybe_validation_package is Some && (old(instance).state.nucleus.dna matches Some(d)
            && entry_accepted(d, dht_data.entry_content.entry))) ==> reduce_rel(
            old(instance).context,
            old(instance).state,
            final(instance).state,
            (ActionWrapper {
                id: old(instance).next_id,
                action: Action::Hold(dht_data.entry_content),
            }),
        ) && !old(instance).state.history@.contains(old(instance).next_id)
            && final(instance).next_id == old(instance).next_id + 1,
        !(maybe_validation_package is Some && (old(instance).state.nucleus.dna matches Some(d)
            && entry_accepted(d, dht_data.entry_content.entry))) ==> *final(instance) == *old(
            instance,
        ),
{
    let EntryData { entry_address: _entry_address, entry_content } = dht_data;
    let _outcome = hold_entry_workflow(entry_content, maybe_validation_package, instance);
}

/// The network requests us to store metadata for an entry: links and link
/// removals spawn the matching workflow; lifecycle-status and
/// lifecycle-link tags are accepted but deliberately produce no state
/// change; unknown tags are ignored.
pub fn handle_store_meta(
    dht_meta_data: DhtMetaData,
    maybe_validation_package: Option<ValidationPackage>,
    instance: &mut Instance,
)
    requires
        old(instance).wf(),
        old(instance).next_id < u64::MAX,
        old(instance).state.dht.meta.rows@.len() + 2 <= u64::MAX,
        (dht_meta_data.attribute@ == "link"@ || dht_meta_data.attribute@ == "link_remove"@)
            ==> dht_meta_data.content_list@.len() == 1,
    ensures
        final(instance).wf(),
        final(instance).context == old(instance).context,
        (dht_meta_data.attribute@ == "link"@ && dht_meta_data.content_list@[0].entry is LinkAdd
            && maybe_validation_package is Some) ==> reduce_rel(
            old(instance).context,
            old(instance).state,
            final(instance).state,
            (ActionWrapper {
                id: old(instance).next_id,
                action: Action::AddLink(dht_meta_data.content_list@[0].entry->LinkAdd_0),
            }),
        ) && !old(instance).state.history@.contains(old(instance).next_id)
            && final(instance).next_id == old(instance).next_id + 1,
        (dht_meta_data.attribute@ == "link_remove"@ && dht_meta_data.content_list@[0].entry
            is LinkRemove && maybe_validation_package is Some) ==> reduce_rel(
            old(instance).context,
            old(instance).state,
            final(instance).state,
            (ActionWrapper {
                id: old(instance).next_id,
                action: Action::RemoveLink(dht_meta_data.content_list@[0].entry->LinkRemove_0),
            }),
        ) && !old(instance).state.history@.contains(old(instance).next_id)
            && final(instance).next_id == old(instance).next_id + 1,
        (dht_meta_data.attribute@ != "link"@ && dht_meta_data.attribute@ != "link_remove"@)
            ==> *final(instance) == *old(instance),
        (dht_meta_data.attribute@ == "link"@ && !(dht_meta_data.content_list@[0].entry
            is LinkAdd && maybe_validation_package is Some)) ==> *final(instance) == *old(
            instance,
        ),
        (dht_meta_data.attribute@ == "link_remove"@ && !(dht_meta_data.content_list@[0].entry
            is LinkRemove && maybe_validation_package is Some)) ==> *final(instance) == *old(
            instance,
        ),
{
    proof {
        reveal_strlit("link");
        reveal_strlit("link_remove");
        reveal_strlit("crud-status");
        reveal_strlit("crud-link");
        assert("link"@.len() == 4);
        assert("link_remove"@.len() == 11);
        assert("crud-status"@.len() == 11);
        assert("crud-link"@.len() == 9);
        assert("link_remove"@[0] == 'l' && "crud-status"@[0] == 'c');
        assert("link"@ != "link_remove"@);
        assert("link"@ != "crud-status"@);
        assert("link"@ != "crud-link"@);
        assert("link_remove"@ != "crud-status"@);
        assert("link_remove"@ != "crud-link"@);
    }
    if text_eq(&dht_meta_data.attribute, "link") {
        let _outcome = hold_link_workflow(
            &dht_meta_data.content_list[0],
            maybe_validation_package,
            instance,
        );
    } else if text_eq(&dht_meta_data.attribute, "link_remove") {
        let _outcome = remove_link_workflow(
            &dht_meta_data.content_list[0],
            maybe_validation_package,
            instance,
        );
    } else if text_eq(&dht_meta_data.attribute, "crud-status") {
        // accepted, deliberately deferred: status metadata arriving before
        // its entry produces no state change here
    } else if text_eq(&dht_meta_data.attribute, "crud-link") {
        // accepted, deliberately deferred, as above
    }
}

} // verus!
