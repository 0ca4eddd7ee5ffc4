//! Enumerating devices: the options of the enumeration, and the collecting of
//! the foreign device list into owned records.

use vstd::prelude::*;

use crate::device::{DeviceInfo, DeviceInfoView};
use crate::raw::{
    flag_from_raw, flag_to_raw, list_view, RawCreateListOptions, RawDeviceInfo, RawNode,
};

verus! {

/// Which devices an enumeration lists, and how.
#[derive(Debug, Copy, Clone, PartialEq, Eq, Structural)]
pub struct CreateListOptions {
    /// Enumerate all USB devices, instead of only devices without a driver installed.
    pub list_all: bool,
    /// Enumerate hubs in addition to normal USB devices.
    pub list_hubs: bool,
    /// Trim whitespace for the device description string.
    pub trim_whitespaces: bool,
}

impl Default for CreateListOptions {
    /// No flag set.
    fn default() -> (r: Self)
        ensures
            r == (CreateListOptions { list_all: false, list_hubs: false, trim_whitespaces: false }),
    {
        CreateListOptions { list_all: false, list_hubs: false, trim_whitespaces: false }
    }
}

impl CreateListOptions {
    /// The foreign options that stand for these: each flag as 1 or 0.
    pub open spec fn spec_as_raw(self) -> RawCreateListOptions {
        RawCreateListOptions {
            list_all: flag_to_raw(self.list_all),
            list_hubs: flag_to_raw(self.list_hubs),
            trim_whitespaces: flag_to_raw(self.trim_whitespaces),
        }
    }

    /// The options that foreign options stand for: each flag set unless its
    /// integer is 0.
    pub open spec fn spec_from_raw(raw: RawCreateListOptions) -> CreateListOptions {
        CreateListOptions {
            list_all: flag_from_raw(raw.list_all),
            list_hubs: flag_from_raw(raw.list_hubs),
            trim_whitespaces: flag_from_raw(raw.trim_whitespaces),
        }
    }

    /// The foreign options that stand for these: each flag as 1 or 0.
    #[verifier::when_used_as_spec(spec_as_raw)]
    pub fn as_raw(self) -> (raw: RawCreateListOptions)
        ensures
            raw == self.spec_as_raw(),
            CreateListOptions::spec_from_raw(raw) == self,
    {
        RawCreateListOptions {
            list_all: flag_to_raw(self.list_all),
            list_hubs: flag_to_raw(self.list_hubs),
            trim_whitespaces: flag_to_raw(self.trim_whitespaces),
        }
    }

    /// The options that foreign options stand for: each flag set unless its
    /// integer is 0.
    #[verifier::when_used_as_spec(spec_from_raw)]
    pub fn from_raw(raw: RawCreateListOptions) -> (options: CreateListOptions)
        ensures
            options == CreateListOptions::spec_from_raw(raw),
    {
        CreateListOptions {
            list_all: flag_from_raw(raw.list_all),
            list_hubs: flag_from_raw(raw.list_hubs),
            trim_whitespaces: flag_from_raw(raw.trim_whitespaces),
        }
    }
}

/// Enumeration options come back unchanged from the foreign options that
/// stand for them.
pub proof fn lemma_create_list_options_round_trip(options: CreateListOptions)
    ensures
        CreateListOptions::spec_from_raw(options.spec_as_raw()) == options,
{
}

/// Whether every node of a foreign device list can be copied to an owned
/// record.
pub open spec fn all_readable(nodes: Seq<RawNode>) -> bool {
    forall|i: int| 0 <= i < nodes.len() ==> (#[trigger] nodes[i]).readable()
}

/// The owned records that the nodes of a foreign device list are copied to,
/// one for each node, in the order of the list.
pub open spec fn owned_list(nodes: Seq<RawNode>) -> Seq<DeviceInfoView> {
    nodes.map_values(|node: RawNode| node.owned())
}

/// The records of a list as plain values.
pub open spec fn list_views(list: Seq<DeviceInfo>) -> Seq<DeviceInfoView> {
    list.map_values(|info: DeviceInfo| info@)
}

/// Whether every node of the foreign device list behind `head` can be copied
/// to an owned record.
pub fn list_is_readable(head: &Option<Box<RawDeviceInfo<'_>>>) -> (r: bool)
    ensures
        r == all_readable(list_view(*head)),
{
    let mut current = head;
    loop
        invariant
            all_readable(list_view(*head)) == all_readable(list_view(*current)),
        decreases list_view(*current).len(),
    {
        match current {
            None => {
                return true;
            },
            Some(node) => {
                assert(list_view(*current)[0] == node.node());
                if !node.is_readable() {
                    return false;
                }
                assert forall|i: int| 0 <= i < list_view(node.next).len() implies list_view(
                    node.next,
                )[i] == list_view(*current)[i + 1] by {}
                current = &node.next;
            },
        }
    }
}

/// Walks the foreign device list behind `head` from its first node to the
/// null link that ends it, and copies each node to an owned record. The
/// records stand in the order of the list; a null head gives none.
pub fn collect_list(head: &Option<Box<RawDeviceInfo<'_>>>) -> (list: Vec<DeviceInfo>)
    requires
        all_readable(list_view(*head)),
    ensures
        list_views(list@) == owned_list(list_view(*head)),
        list@.len() == list_view(*head).len(),
        forall|i: int|
            0 <= i < list@.len() ==> (#[trigger] list@[i])@ == list_view(*head)[i].owned(),
{
    let mut list: Vec<DeviceInfo> = Vec::new();
    let mut current = head;
    loop
        invariant_except_break
            all_readable(list_view(*current)),
            list_view(*head) == list_view(*head).take(list@.len() as int) + list_view(*current),
            list@.len() + list_view(*current).len() == list_view(*head).len(),
            forall|i: int|
                0 <= i < list@.len() ==> (#[trigger] list@[i])@ == list_view(*head)[i].owned(),
        ensures
            list@.len() == list_view(*head).len(),
            forall|i: int|
                0 <= i < list@.len() ==> (#[trigger] list@[i])@ == list_view(*head)[i].owned(),
        decreases list_view(*current).len(),
    {
        match current {
            None => {
                break ;
            },
            Some(node) => {
                let ghost rest = list_view(node.next);
                assert(list_view(*current)[0] == node.node());
                assert forall|i: int| 0 <= i < rest.len() implies (#[trigger] rest[i]).readable() by {
                    assert(rest[i] == list_view(*current)[i + 1]);
                }
                let info = DeviceInfo::clone_from_raw(node);
                list.push(info);
                current = &node.next;
            },
        }
    }
    list
}

} // verus!
