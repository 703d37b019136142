//! Match descriptors and the sentinel-terminated table the host scans.

use vstd::prelude::*;

verus! {

/// One match descriptor: which interfaces or devices a driver handles.
///
/// A descriptor whose fields are all zero is the sentinel: the host's scan of
/// a table stops at the first one it meets.
#[derive(Clone, Copy, Debug, PartialEq, Eq, Structural)]
pub struct UsbDeviceId {
    /// Bit mask telling the host which of the fields below take part in matching.
    pub match_flags: u16,
    pub id_vendor: u16,
    pub id_product: u16,
    pub bcd_device_lo: u16,
    pub bcd_device_hi: u16,
    pub device_class: u8,
    pub device_subclass: u8,
    pub device_protocol: u8,
    pub interface_class: u8,
    pub interface_subclass: u8,
    pub interface_protocol: u8,
    pub interface_number: u8,
    /// Opaque tag handed back to the driver; never interpreted by the host.
    pub driver_info: u64,
}

impl UsbDeviceId {
    /// The all-zero descriptor that terminates a table.
    pub open spec fn sentinel() -> UsbDeviceId {
        UsbDeviceId {
            match_flags: 0,
            id_vendor: 0,
            id_product: 0,
            bcd_device_lo: 0,
            bcd_device_hi: 0,
            device_class: 0,
            device_subclass: 0,
            device_protocol: 0,
            interface_class: 0,
            interface_subclass: 0,
            interface_protocol: 0,
            interface_number: 0,
            driver_info: 0,
        }
    }

    /// The descriptor for an interface class, subclass and protocol: those
    /// three fields are set, every other field is zero.
    pub open spec fn interface_info(class: u8, subclass: u8, protocol: u8) -> UsbDeviceId {
        UsbDeviceId {
            interface_class: class,
            interface_subclass: subclass,
            interface_protocol: protocol,
            ..UsbDeviceId::sentinel()
        }
    }

    /// Whether every field is zero.
    pub open spec fn is_sentinel(self) -> bool {
        self == UsbDeviceId::sentinel()
    }

    /// Builds the descriptor for an interface class, subclass and protocol.
    pub fn usb_interface_info(
        interface_class: u8,
        interface_subclass: u8,
        interface_protocol: u8,
    ) -> (id: UsbDeviceId)
        ensures
            id == UsbDeviceId::interface_info(interface_class, interface_subclass, interface_protocol),
    {
        usb_device_interface_info(interface_class, interface_subclass, interface_protocol)
    }

    /// Builds the sentinel.
    pub fn default() -> (id: UsbDeviceId)
        ensures
            id == UsbDeviceId::sentinel(),
    {
        usb_device_default()
    }

    /// Tells whether this descriptor is the sentinel.
    pub fn is_zero(&self) -> (zero: bool)
        ensures
            zero == self.is_sentinel(),
    {
        self.match_flags == 0 && self.id_vendor == 0 && self.id_product == 0
            && self.bcd_device_lo == 0 && self.bcd_device_hi == 0 && self.device_class == 0
            && self.device_subclass == 0 && self.device_protocol == 0 && self.interface_class == 0
            && self.interface_subclass == 0 && self.interface_protocol == 0
            && self.interface_number == 0 && self.driver_info == 0
    }
}

/// Builds the descriptor for an interface class, subclass and protocol,
/// starting from the all-zero record.
pub fn usb_device_interface_info(
    interface_class: u8,
    interface_subclass: u8,
    interface_protocol: u8,
) -> (dev: UsbDeviceId)
    ensures
        dev == UsbDeviceId::interface_info(interface_class, interface_subclass, interface_protocol),
{
    let mut dev = UsbDeviceId {
        match_flags: 0,
        id_vendor: 0,
        id_product: 0,
        bcd_device_lo: 0,
        bcd_device_hi: 0,
        device_class: 0,
        device_subclass: 0,
        device_protocol: 0,
        interface_class: 0,
        interface_subclass: 0,
        interface_protocol: 0,
        interface_number: 0,
        driver_info: 0,
    };
    dev.interface_class = interface_class;
    dev.interface_subclass = interface_subclass;
    dev.interface_protocol = interface_protocol;
    dev
}

/// Builds the all-zero descriptor.
pub fn usb_device_default() -> (dev: UsbDeviceId)
    ensures
        dev == UsbDeviceId::sentinel(),
{
    UsbDeviceId {
        match_flags: 0,
        id_vendor: 0,
        id_product: 0,
        bcd_device_lo: 0,
        bcd_device_hi: 0,
        device_class: 0,
        device_subclass: 0,
        device_protocol: 0,
        interface_class: 0,
        interface_subclass: 0,
        interface_protocol: 0,
        interface_number: 0,
        driver_info: 0,
    }
}

/// The entries of the table built from `triples` and `specific`: one
/// interface descriptor per triple, in order, then the specific entries, in
/// order, then the sentinel.
pub open spec fn table_entries(
    triples: Seq<(u8, u8, u8)>,
    specific: Seq<UsbDeviceId>,
) -> Seq<UsbDeviceId> {
    Seq::new(
        triples.len(),
        |i: int| UsbDeviceId::interface_info(triples[i].0, triples[i].1, triples[i].2),
    ) + specific + seq![UsbDeviceId::sentinel()]
}

/// An ordered list of match descriptors that always ends with the sentinel.
///
/// The entries are fixed at construction. A table with no entry but the
/// sentinel is legal and matches nothing.
#[derive(Debug)]
pub struct IdentifierTable {
    entries: Vec<UsbDeviceId>,
}

impl View for IdentifierTable {
    type V = Seq<UsbDeviceId>;

    /// All entries in order, the sentinel included.
    closed spec fn view(&self) -> Seq<UsbDeviceId> {
        self.entries@
    }
}

impl IdentifierTable {
    #[verifier::type_invariant]
    spec fn terminated(&self) -> bool {
        self.entries@.len() >= 1 && self.entries@.last().is_sentinel()
    }

    /// Builds the table for the given interface triples (class, subclass,
    /// protocol) followed by the given vendor- or product-specific entries,
    /// and terminates it with the sentinel.
    pub fn new(triples: &[(u8, u8, u8)], specific: &[UsbDeviceId]) -> (table: IdentifierTable)
        ensures
            table@ == table_entries(triples@, specific@),
            table@.len() == triples@.len() + specific@.len() + 1,
            table@.last().is_sentinel(),
    {
        let mut entries: Vec<UsbDeviceId> = Vec::new();
        let mut i: usize = 0;
        while i < triples.len()
            invariant
                i <= triples@.len(),
                entries@ == Seq::new(
                    i as nat,
                    |k: int| UsbDeviceId::interface_info(triples@[k].0, triples@[k].1, triples@[k].2),
                ),
            decreases triples@.len() - i,
        {
            let t: (u8, u8, u8) = triples[i];
            entries.push(usb_device_interface_info(t.0, t.1, t.2));
            i = i + 1;
        }
        let ghost head = entries@;
        let mut j: usize = 0;
        while j < specific.len()
            invariant
                j <= specific@.len(),
                entries@ == head + specific@.subrange(0, j as int),
            decreases specific@.len() - j,
        {
            entries.push(specific[j]);
            j = j + 1;
        }
        assert(specific@.subrange(0, j as int) == specific@);
        entries.push(usb_device_default());
        IdentifierTable { entries }
    }

    /// The number of entries, the sentinel included.
    pub fn len(&self) -> (n: usize)
        ensures
            n == self@.len(),
            n >= 1,
    {
        proof {
            use_type_invariant(self);
        }
        self.entries.len()
    }

    /// The entry at position `index`, or `None` past the end.
    pub fn get(&self, index: usize) -> (entry: Option<UsbDeviceId>)
        ensures
            entry == (if index < self@.len() {
                Some(self@[index as int])
            } else {
                None
            }),
    {
        if index < self.entries.len() {
            Some(self.entries[index])
        } else {
            None
        }
    }

    /// All entries in order, ending with the sentinel: the record array the
    /// host scans.
    pub fn as_slice(&self) -> (entries: &[UsbDeviceId])
        ensures
            entries@ == self@,
            entries@.len() >= 1,
            entries@.last().is_sentinel(),
    {
        proof {
            use_type_invariant(self);
        }
        self.entries.as_slice()
    }
}

/// A table always ends with the sentinel, whatever it was built from.
pub proof fn table_ends_with_sentinel(triples: Seq<(u8, u8, u8)>, specific: Seq<UsbDeviceId>)
    ensures
        table_entries(triples, specific).len() == triples.len() + specific.len() + 1,
        table_entries(triples, specific).last().is_sentinel(),
{
}

/// Each entry of a table is the descriptor of the triple, or the specific
/// entry, that stands at its position in the input.
pub proof fn table_keeps_input_order(
    triples: Seq<(u8, u8, u8)>,
    specific: Seq<UsbDeviceId>,
    k: int,
)
    requires
        0 <= k < triples.len() + specific.len(),
    ensures
        k < triples.len() ==> table_entries(triples, specific)[k] == UsbDeviceId::interface_info(
            triples[k].0,
            triples[k].1,
            triples[k].2,
        ),
        k >= triples.len() ==> table_entries(triples, specific)[k] == specific[k - triples.len()],
{
}

/// When no input entry is all zero, the sentinel is the only all-zero entry
/// of the table: none occurs before the last position.
pub proof fn sentinel_only_at_end(triples: Seq<(u8, u8, u8)>, specific: Seq<UsbDeviceId>)
    requires
        forall|i: int| 0 <= i < triples.len() ==> triples[i] != (0u8, 0u8, 0u8),
        forall|j: int| 0 <= j < specific.len() ==> !specific[j].is_sentinel(),
    ensures
        forall|k: int|
            0 <= k < table_entries(triples, specific).len() - 1 ==> !(#[trigger] table_entries(
                triples,
                specific,
            )[k]).is_sentinel(),
{
    assert forall|k: int| 0 <= k < table_entries(triples, specific).len() - 1 implies !(
    #[trigger] table_entries(triples, specific)[k]).is_sentinel() by {
        table_keeps_input_order(triples, specific, k);
        if k < triples.len() {
            assert(triples[k] != (0u8, 0u8, 0u8));
        } else {
            assert(!specific[k - triples.len()].is_sentinel());
        }
    }
}

} // verus!
