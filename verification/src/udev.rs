//! Classification of udev devices and dispatch of udev events.
//!
//! A udev device is a snapshot of what the queries read: name, subsystem,
//! node type, device file, properties, sysfs attributes, tags, and parents
//! keyed by subsystem (or by `subsystem/devtype`). Properties, attributes
//! and parents are lists of entries; a lookup finds the first entry with
//! the key.
use vstd::prelude::*;

use crate::text::{ends_with, parse_i64, spec_ends_with, spec_parse_i64, spec_starts_with, starts_with, str_eq};

verus! {

/// The kind of DRM device node.
#[derive(Debug, Clone, Copy, PartialEq, Eq, Structural)]
pub enum UdevDeviceType {
    Card,
    RenderNode,
}

/// The kind of a device node. `NoNode` stands for a device without a node.
#[derive(Debug, Clone, Copy, PartialEq, Eq, Structural, Default)]
pub enum DeviceNodeType {
    #[default]
    NoNode,
    Char,
    Block,
}

/// What a udev event announces.
#[derive(Debug, Clone, Copy, PartialEq, Eq, Structural)]
pub enum UdevSignal {
    Hotplug,
    Lease,
    DeviceAdded,
    DeviceRemoved,
    BacklightChanged,
}

/// A snapshot of a udev device.
#[derive(Debug)]
pub struct UdevDevice {
    pub name: String,
    pub subsystem: String,
    pub node_type: DeviceNodeType,
    pub device_file: Option<String>,
    pub properties: Vec<(String, String)>,
    pub sysfs_attrs: Vec<(String, String)>,
    pub tags: Vec<String>,
    pub current_tags: Vec<String>,
    pub parents: Vec<(String, Box<UdevDevice>)>,
}

/// The value of the first entry whose key is `key`.
pub open spec fn lookup(entries: Seq<(String, String)>, key: Seq<char>) -> Option<Seq<char>>
    decreases entries.len(),
{
    if entries.len() == 0 {
        None
    } else if entries[0].0@ == key {
        Some(entries[0].1@)
    } else {
        lookup(entries.skip(1), key)
    }
}

/// The device of the first parent entry whose key is `key`.
pub open spec fn parent_lookup(parents: Seq<(String, Box<UdevDevice>)>, key: Seq<char>) -> Option<
    UdevDevice,
>
    decreases parents.len(),
{
    if parents.len() == 0 {
        None
    } else if parents[0].0@ == key {
        Some(*parents[0].1)
    } else {
        parent_lookup(parents.skip(1), key)
    }
}

/// Some text of the list is `t`.
pub open spec fn has_text(s: Seq<String>, t: Seq<char>) -> bool {
    exists|i: int| 0 <= i < s.len() && #[trigger] s[i]@ == t
}

/// The text of an optional string slice.
pub open spec fn opt_view(o: Option<&str>) -> Option<Seq<char>> {
    match o {
        Some(s) => Some(s@),
        None => None,
    }
}

/// The integer value of an optional text: its decimal value when it
/// spells an `i64`, else 0.
pub open spec fn int_or_zero(v: Option<Seq<char>>) -> i64 {
    match v {
        Some(t) => match spec_parse_i64(t) {
            Some(n) => n,
            None => 0,
        },
        None => 0,
    }
}

/// No key occurs twice among `entries`: they stand for a map.
pub open spec fn keys_unique<V>(entries: Seq<(String, V)>) -> bool {
    forall|i: int, j: int|
        0 <= i < entries.len() && 0 <= j < entries.len() && i != j ==> #[trigger] entries[i].0@
            != #[trigger] entries[j].0@
}

proof fn lemma_lookup_at(s: Seq<(String, String)>, k: Seq<char>, i: int)
    requires
        0 <= i < s.len(),
        s[i].0@ == k,
        forall|j: int| 0 <= j < i ==> s[j].0@ != k,
    ensures
        lookup(s, k) == Some(s[i].1@),
    decreases i,
{
    if i > 0 {
        lemma_lookup_at(s.skip(1), k, i - 1);
    }
}

proof fn lemma_lookup_absent(s: Seq<(String, String)>, k: Seq<char>)
    requires
        forall|j: int| 0 <= j < s.len() ==> s[j].0@ != k,
    ensures
        lookup(s, k) is None,
    decreases s.len(),
{
    if s.len() > 0 {
        lemma_lookup_absent(s.skip(1), k);
    }
}

proof fn lemma_parent_lookup_at(s: Seq<(String, Box<UdevDevice>)>, k: Seq<char>, i: int)
    requires
        0 <= i < s.len(),
        s[i].0@ == k,
        forall|j: int| 0 <= j < i ==> s[j].0@ != k,
    ensures
        parent_lookup(s, k) == Some(*s[i].1),
    decreases i,
{
    if i > 0 {
        lemma_parent_lookup_at(s.skip(1), k, i - 1);
    }
}

proof fn lemma_parent_lookup_absent(s: Seq<(String, Box<UdevDevice>)>, k: Seq<char>)
    requires
        forall|j: int| 0 <= j < s.len() ==> s[j].0@ != k,
    ensures
        parent_lookup(s, k) is None,
    decreases s.len(),
{
    if s.len() > 0 {
        lemma_parent_lookup_absent(s.skip(1), k);
    }
}

/// The position of the entry keyed `key`, if there is one; with no key
/// twice, the only one.
fn key_index<V>(entries: &Vec<(String, V)>, key: &str) -> (r: Option<usize>)
    ensures
        r matches Some(i) ==> i < entries@.len() && entries@[i as int].0@ == key@ && forall|j: int|
            0 <= j < i ==> entries@[j].0@ != key@,
        r is None ==> forall|j: int| 0 <= j < entries@.len() ==> entries@[j].0@ != key@,
{
    let mut i: usize = 0;
    while i < entries.len()
        invariant
            i <= entries@.len(),
            forall|j: int| 0 <= j < i ==> entries@[j].0@ != key@,
        decreases entries@.len() - i,
    {
        if str_eq(entries[i].0.as_str(), key) {
            return Some(i);
        }
        i += 1;
    }
    None
}

/// Sets the value of `key` to `value`: the entry keyed `key` takes it, or a
/// new entry is appended when there is none.
fn insert_entry(entries: &mut Vec<(String, String)>, key: &str, value: &str)
    requires
        keys_unique(old(entries)@),
    ensures
        keys_unique(final(entries)@),
        lookup(final(entries)@, key@) == Some(value@),
        forall|k: Seq<char>| k != key@ ==> lookup(final(entries)@, k) == lookup(old(entries)@, k),
{
    let found = key_index(entries, key);
    let entry = (String::from_str(key), String::from_str(value));
    let ghost old_s = entries@;
    match found {
        Some(i) => {
            entries.set(i, entry);
            proof {
                let new_s = entries@;
                assert(new_s == old_s.update(i as int, entry));
                lemma_lookup_at(new_s, key@, i as int);
                assert forall|k: Seq<char>| k != key@ implies lookup(new_s, k) == lookup(old_s, k) by {
                    if exists|j: int| 0 <= j < old_s.len() && old_s[j].0@ == k {
                        let j = choose|j: int| 0 <= j < old_s.len() && old_s[j].0@ == k;
                        lemma_lookup_at(old_s, k, j);
                        lemma_lookup_at(new_s, k, j);
                    } else {
                        lemma_lookup_absent(old_s, k);
                        lemma_lookup_absent(new_s, k);
                    }
                }
            }
        },
        None => {
            entries.push(entry);
            proof {
                let new_s = entries@;
                assert(new_s == old_s.push(entry));
                lemma_lookup_at(new_s, key@, old_s.len() as int);
                assert forall|k: Seq<char>| k != key@ implies lookup(new_s, k) == lookup(old_s, k) by {
                    if exists|j: int| 0 <= j < old_s.len() && old_s[j].0@ == k {
                        let j = choose|j: int| 0 <= j < old_s.len() && old_s[j].0@ == k;
                        lemma_lookup_at(old_s, k, j);
                        lemma_lookup_at(new_s, k, j);
                    } else {
                        lemma_lookup_absent(old_s, k);
                        lemma_lookup_absent(new_s, k);
                    }
                }
            }
        },
    }
}

/// Sets the parent keyed `key` to `parent`, replacing one keyed so or
/// appending it.
fn insert_parent(parents: &mut Vec<(String, Box<UdevDevice>)>, key: &str, parent: UdevDevice)
    requires
        keys_unique(old(parents)@),
    ensures
        keys_unique(final(parents)@),
        parent_lookup(final(parents)@, key@) == Some(parent),
        forall|k: Seq<char>| k != key@ ==> parent_lookup(final(parents)@, k) == parent_lookup(old(parents)@, k),
{
    let found = key_index(parents, key);
    let entry = (String::from_str(key), Box::new(parent));
    let ghost old_s = parents@;
    match found {
        Some(i) => {
            parents.set(i, entry);
            proof {
                let new_s = parents@;
                assert(new_s == old_s.update(i as int, entry));
                lemma_parent_lookup_at(new_s, key@, i as int);
                assert forall|k: Seq<char>| k != key@ implies parent_lookup(new_s, k) == parent_lookup(old_s, k) by {
                    if exists|j: int| 0 <= j < old_s.len() && old_s[j].0@ == k {
                        let j = choose|j: int| 0 <= j < old_s.len() && old_s[j].0@ == k;
                        lemma_parent_lookup_at(old_s, k, j);
                        lemma_parent_lookup_at(new_s, k, j);
                    } else {
                        lemma_parent_lookup_absent(old_s, k);
                        lemma_parent_lookup_absent(new_s, k);
                    }
                }
            }
        },
        None => {
            parents.push(entry);
            proof {
                let new_s = parents@;
                assert(new_s == old_s.push(entry));
                lemma_parent_lookup_at(new_s, key@, old_s.len() as int);
                assert forall|k: Seq<char>| k != key@ implies parent_lookup(new_s, k) == parent_lookup(old_s, k) by {
                    if exists|j: int| 0 <= j < old_s.len() && old_s[j].0@ == k {
                        let j = choose|j: int| 0 <= j < old_s.len() && old_s[j].0@ == k;
                        lemma_parent_lookup_at(old_s, k, j);
                        lemma_parent_lookup_at(new_s, k, j);
                    } else {
                        lemma_parent_lookup_absent(old_s, k);
                        lemma_parent_lookup_absent(new_s, k);
                    }
                }
            }
        },
    }
}

/// The device carries `tag`, or its platform parent does, up the chain.
pub open spec fn spec_has_tag(d: UdevDevice, tag: Seq<char>) -> bool
    decreases d, 1int,
{
    has_text(d.tags@, tag) || platform_has_tag(d.parents@, tag)
}

/// The first parent entry keyed "platform" carries `tag` (up its chain).
pub open spec fn platform_has_tag(parents: Seq<(String, Box<UdevDevice>)>, tag: Seq<char>) -> bool
    decreases parents, 0int,
{
    if parents.len() == 0 {
        false
    } else if parents[0].0@ == "platform"@ {
        spec_has_tag(*parents[0].1, tag)
    } else {
        proof {
            assert(decreases_to!(parents => parents.subrange(1, parents.len() as int)));
        }
        platform_has_tag(parents.skip(1), tag)
    }
}

impl Default for UdevDevice {
    /// A device with no name, subsystem, node, file, property, attribute,
    /// tag or parent.
    fn default() -> (d: Self)
        ensures
            d.wf(),
            d.name@ == Seq::<char>::empty(),
            d.subsystem@ == Seq::<char>::empty(),
            d.node_type == DeviceNodeType::NoNode,
            d.device_file is None,
            d.properties@ == Seq::<(String, String)>::empty(),
            d.sysfs_attrs@ == Seq::<(String, String)>::empty(),
            d.tags@ == Seq::<String>::empty(),
            d.current_tags@ == Seq::<String>::empty(),
            d.parents@ == Seq::<(String, Box<UdevDevice>)>::empty(),
    {
        UdevDevice {
            name: String::new(),
            subsystem: String::new(),
            node_type: DeviceNodeType::NoNode,
            device_file: None,
            properties: Vec::new(),
            sysfs_attrs: Vec::new(),
            tags: Vec::new(),
            current_tags: Vec::new(),
            parents: Vec::new(),
        }
    }
}

impl UdevDevice {
    /// The properties, sysfs attributes and parents each hold a key at most
    /// once: they are maps.
    pub open spec fn wf(&self) -> bool {
        &&& keys_unique(self.properties@)
        &&& keys_unique(self.sysfs_attrs@)
        &&& keys_unique(self.parents@)
    }

    /// Sets property `key` to `value`, replacing its value if it is set.
    pub fn set_property(&mut self, key: &str, value: &str)
        requires
            old(self).wf(),
        ensures
            final(self).wf(),
            final(self).spec_property(key@) == Some(value@),
            forall|k: Seq<char>| k != key@ ==> final(self).spec_property(k) == old(self).spec_property(k),
            final(self).sysfs_attrs@ == old(self).sysfs_attrs@,
            final(self).parents@ == old(self).parents@,
            final(self).name@ == old(self).name@,
            final(self).subsystem@ == old(self).subsystem@,
            final(self).node_type == old(self).node_type,
            final(self).tags@ == old(self).tags@,
            final(self).current_tags@ == old(self).current_tags@,
    {
        insert_entry(&mut self.properties, key, value);
    }

    /// Sets sysfs attribute `key` to `value`, replacing its value if it is
    /// set.
    pub fn set_sysfs_attr(&mut self, key: &str, value: &str)
        requires
            old(self).wf(),
        ensures
            final(self).wf(),
            final(self).spec_sysfs_attr(key@) == Some(value@),
            forall|k: Seq<char>| k != key@ ==> final(self).spec_sysfs_attr(k) == old(self).spec_sysfs_attr(k),
            final(self).properties@ == old(self).properties@,
            final(self).parents@ == old(self).parents@,
            final(self).name@ == old(self).name@,
            final(self).subsystem@ == old(self).subsystem@,
            final(self).node_type == old(self).node_type,
            final(self).tags@ == old(self).tags@,
            final(self).current_tags@ == old(self).current_tags@,
    {
        insert_entry(&mut self.sysfs_attrs, key, value);
    }

    /// Sets the parent keyed `key` (a subsystem, or `subsystem/devtype`) to
    /// `parent`, replacing one keyed so.
    pub fn set_parent(&mut self, key: &str, parent: UdevDevice)
        requires
            old(self).wf(),
        ensures
            final(self).wf(),
            final(self).spec_parent(key@) == Some(parent),
            forall|k: Seq<char>| k != key@ ==> final(self).spec_parent(k) == old(self).spec_parent(k),
            final(self).properties@ == old(self).properties@,
            final(self).sysfs_attrs@ == old(self).sysfs_attrs@,
            final(self).name@ == old(self).name@,
            final(self).subsystem@ == old(self).subsystem@,
            final(self).node_type == old(self).node_type,
            final(self).tags@ == old(self).tags@,
            final(self).current_tags@ == old(self).current_tags@,
    {
        insert_parent(&mut self.parents, key, parent);
    }

    /// The value of property `key`.
    pub open spec fn spec_property(&self, key: Seq<char>) -> Option<Seq<char>> {
        lookup(self.properties@, key)
    }

    /// The value of sysfs attribute `key`.
    pub open spec fn spec_sysfs_attr(&self, key: Seq<char>) -> Option<Seq<char>> {
        lookup(self.sysfs_attrs@, key)
    }

    /// The parent keyed `key`.
    pub open spec fn spec_parent(&self, key: Seq<char>) -> Option<UdevDevice> {
        parent_lookup(self.parents@, key)
    }

    /// Property `key` read as a boolean: "1" and "true" are true.
    pub open spec fn spec_property_as_bool(&self, key: Seq<char>) -> bool {
        self.spec_property(key) == Some("1"@) || self.spec_property(key) == Some("true"@)
    }

    /// The value of property `key`, if set.
    pub fn property(&self, key: &str) -> (r: Option<&str>)
        ensures
            opt_view(r) == self.spec_property(key@),
    {
        find_entry(&self.properties, key)
    }

    /// Property `key` read as a boolean: "1" and "true" are true, anything
    /// else, and an unset property, false.
    pub fn property_as_bool(&self, key: &str) -> (r: bool)
        ensures
            r == self.spec_property_as_bool(key@),
    {
        match self.property(key) {
            Some(v) => {
                let one = str_eq(v, "1");
                let t = str_eq(v, "true");
                proof {
                    reveal_strlit("1");
                    reveal_strlit("true");
                }
                one || t
            },
            None => false,
        }
    }

    /// The value of sysfs attribute `key`, if set.
    pub fn sysfs_attr(&self, key: &str) -> (r: Option<&str>)
        ensures
            opt_view(r) == self.spec_sysfs_attr(key@),
    {
        find_entry(&self.sysfs_attrs, key)
    }

    /// Sysfs attribute `key` read as an integer; 0 when unset or not a
    /// decimal `i64`.
    pub fn sysfs_attr_as_int(&self, key: &str) -> (r: i64)
        ensures
            r == int_or_zero(self.spec_sysfs_attr(key@)),
    {
        match self.sysfs_attr(key) {
            Some(v) => match parse_i64(v) {
                Some(n) => n,
                None => 0,
            },
            None => 0,
        }
    }

    /// The parent in `subsystem`, if any.
    pub fn parent_with_subsystem(&self, subsystem: &str) -> (r: Option<&UdevDevice>)
        ensures
            r matches Some(p) ==> self.spec_parent(subsystem@) == Some(*p),
            r is None ==> self.spec_parent(subsystem@) is None,
    {
        find_parent(&self.parents, subsystem)
    }

    /// The parent in `subsystem` of device type `devtype` (keyed
    /// `subsystem/devtype`), if any.
    pub fn parent_with_subsystem_devtype(&self, subsystem: &str, devtype: &str) -> (r: Option<
        &UdevDevice,
    >)
        ensures
            r matches Some(p) ==> self.spec_parent(subsystem@ + "/"@ + devtype@) == Some(*p),
            r is None ==> self.spec_parent(subsystem@ + "/"@ + devtype@) is None,
    {
        let mut key = String::from_str(subsystem);
        key.append("/");
        key.append(devtype);
        find_parent(&self.parents, key.as_str())
    }
}

fn find_entry<'a>(entries: &'a Vec<(String, String)>, key: &str) -> (r: Option<&'a str>)
    ensures
        opt_view(r) == lookup(entries@, key@),
{
    let mut i: usize = 0;
    assert(entries@.skip(0) =~= entries@);
    while i < entries.len()
        invariant
            i <= entries@.len(),
            lookup(entries@, key@) == lookup(entries@.skip(i as int), key@),
        decreases entries@.len() - i,
    {
        let ghost rest = entries@.skip(i as int);
        assert(rest[0] == entries@[i as int]);
        assert(rest.skip(1) =~= entries@.skip(i + 1));
        if str_eq(entries[i].0.as_str(), key) {
            return Some(entries[i].1.as_str());
        }
        i += 1;
    }
    assert(entries@.skip(i as int).len() == 0);
    None
}

fn find_parent<'a>(parents: &'a Vec<(String, Box<UdevDevice>)>, key: &str) -> (r: Option<
    &'a UdevDevice,
>)
    ensures
        r matches Some(p) ==> parent_lookup(parents@, key@) == Some(*p),
        r is None ==> parent_lookup(parents@, key@) is None,
{
    let mut i: usize = 0;
    assert(parents@.skip(0) =~= parents@);
    while i < parents.len()
        invariant
            i <= parents@.len(),
            parent_lookup(parents@, key@) == parent_lookup(parents@.skip(i as int), key@),
        decreases parents@.len() - i,
    {
        let ghost rest = parents@.skip(i as int);
        assert(rest[0] == parents@[i as int]);
        assert(rest.skip(1) =~= parents@.skip(i + 1));
        if str_eq(parents[i].0.as_str(), key) {
            return Some(&*parents[i].1);
        }
        i += 1;
    }
    assert(parents@.skip(i as int).len() == 0);
    None
}

fn has_text_exec(list: &Vec<String>, t: &str) -> (r: bool)
    ensures
        r == has_text(list@, t@),
{
    let mut i: usize = 0;
    while i < list.len()
        invariant
            i <= list@.len(),
            forall|j: int| 0 <= j < i ==> list@[j]@ != t@,
        decreases list@.len() - i,
    {
        if str_eq(list[i].as_str(), t) {
            assert(list@[i as int]@ == t@);
            return true;
        }
        i += 1;
    }
    false
}

/// Whether the device has a platform parent.
pub fn is_udev_device_platform_device(device: &UdevDevice) -> (r: bool)
    ensures
        r == device.spec_parent("platform"@) is Some,
{
    device.parent_with_subsystem("platform").is_some()
}

/// Whether the device is the boot VGA device: its PCI parent's `boot_vga`
/// or its DRM parent's `boot_display` attribute reads 1.
pub open spec fn spec_is_boot_vga(d: UdevDevice) -> bool {
    (d.spec_parent("pci"@) matches Some(pci) && int_or_zero(pci.spec_sysfs_attr("boot_vga"@))
        == 1) || (d.spec_parent("drm"@) matches Some(drm) && int_or_zero(
        drm.spec_sysfs_attr("boot_display"@),
    ) == 1)
}

/// Whether the device is the boot VGA device.
pub fn is_udev_device_boot_vga(device: &UdevDevice) -> (r: bool)
    ensures
        r == spec_is_boot_vga(*device),
{
    if let Some(pci) = device.parent_with_subsystem("pci") {
        if pci.sysfs_attr_as_int("boot_vga") == 1 {
            return true;
        }
    }
    if let Some(drm) = device.parent_with_subsystem("drm") {
        if drm.sysfs_attr_as_int("boot_display") == 1 {
            return true;
        }
    }
    false
}

/// Whether the device, or a device up its chain of platform parents,
/// carries `tag`.
fn has_udev_device_tag(device: &UdevDevice, tag: &str) -> (r: bool)
    ensures
        r == spec_has_tag(*device, tag@),
    decreases *device, 1int,
{
    if has_text_exec(&device.tags, tag) {
        return true;
    }
    platform_parent_has_tag(&device.parents, tag)
}

fn platform_parent_has_tag(parents: &Vec<(String, Box<UdevDevice>)>, tag: &str) -> (r: bool)
    ensures
        r == platform_has_tag(parents@, tag@),
    decreases parents@, 0int,
{
    let mut i: usize = 0;
    assert(parents@.skip(0) =~= parents@);
    while i < parents.len()
        invariant
            i <= parents@.len(),
            platform_has_tag(parents@, tag@) == platform_has_tag(parents@.skip(i as int), tag@),
        decreases parents@.len() - i,
    {
        let ghost rest = parents@.skip(i as int);
        assert(rest[0] == parents@[i as int]);
        assert(rest.skip(1) =~= parents@.skip(i + 1));
        if str_eq(parents[i].0.as_str(), "platform") {
            proof {
                assert(decreases_to!(parents@ => parents@[i as int]));
            }
            return has_udev_device_tag(&*parents[i].1, tag);
        }
        i += 1;
    }
    assert(parents@.skip(i as int).len() == 0);
    false
}

/// Whether KMS modifiers are disabled for the device by the
/// "mutter-device-disable-kms-modifiers" tag.
pub fn is_udev_device_disable_modifiers(device: &UdevDevice) -> (r: bool)
    ensures
        r == spec_has_tag(*device, "mutter-device-disable-kms-modifiers"@),
{
    has_udev_device_tag(device, "mutter-device-disable-kms-modifiers")
}

/// Whether the device is to be ignored, by the "mutter-device-ignore" tag.
pub fn is_udev_device_ignore(device: &UdevDevice) -> (r: bool)
    ensures
        r == spec_has_tag(*device, "mutter-device-ignore"@),
{
    has_udev_device_tag(device, "mutter-device-ignore")
}

/// Whether the device is a virtual KMS test device: its DEVPATH lies under
/// "/devices/faux/vkms/drm/card", or its ID_PATH is "platform-vkms".
pub open spec fn spec_is_test_device(d: UdevDevice) -> bool {
    (d.spec_property("DEVPATH"@) matches Some(p) && spec_starts_with(
        p,
        "/devices/faux/vkms/drm/card"@,
    )) || d.spec_property("ID_PATH"@) == Some("platform-vkms"@)
}

/// Whether the device is a virtual KMS test device.
pub fn is_udev_test_device(device: &UdevDevice) -> (r: bool)
    ensures
        r == spec_is_test_device(*device),
{
    if let Some(devpath) = device.property("DEVPATH") {
        if starts_with(devpath, "/devices/faux/vkms/drm/card") {
            return true;
        }
    }
    match device.property("ID_PATH") {
        Some(p) => str_eq(p, "platform-vkms"),
        None => false,
    }
}

/// Whether the device carries the current tag
/// "mutter-device-preferred-primary".
pub fn is_udev_device_preferred_primary(device: &UdevDevice) -> (r: bool)
    ensures
        r == has_text(device.current_tags@, "mutter-device-preferred-primary"@),
{
    has_text_exec(&device.current_tags, "mutter-device-preferred-primary")
}

/// The udev state: whether event handling is active, whether the backend
/// is headless, and the seat this session runs on.
#[derive(Debug)]
pub struct Udev {
    handler_active: bool,
    headless: bool,
    seat_id: Option<String>,
}

/// `device` is a DRM device of this seat: a character device of type
/// "drm_minor" whose ID_SEAT (default "seat0") is the session's seat
/// (default "seat0" too), the seat being ignored when headless.
pub open spec fn spec_is_drm_device(headless: bool, seat_id: Option<Seq<char>>, d: UdevDevice) -> bool {
    &&& d.node_type == DeviceNodeType::Char
    &&& d.spec_property("DEVTYPE"@) == Some("drm_minor"@)
    &&& headless || (match seat_id {
        Some(s) => s,
        None => "seat0"@,
    }) == (match d.spec_property("ID_SEAT"@) {
        Some(s) => s,
        None => "seat0"@,
    })
}

/// The signals that an event with `action` on `d` announces.
pub open spec fn spec_uevent_signals(active: bool, action: Seq<char>, d: UdevDevice) -> Seq<
    UdevSignal,
> {
    if !active {
        seq![]
    } else if d.subsystem@ == "drm"@ {
        if d.device_file is None {
            seq![]
        } else {
            let first: Seq<UdevSignal> = if action == "add"@ {
                seq![UdevSignal::DeviceAdded]
            } else if action == "remove"@ {
                seq![UdevSignal::DeviceRemoved]
            } else {
                seq![]
            };
            let hot: Seq<UdevSignal> = if d.spec_property_as_bool("HOTPLUG"@) {
                seq![UdevSignal::Hotplug]
            } else {
                seq![]
            };
            let lease: Seq<UdevSignal> = if d.spec_property_as_bool("LEASE"@) {
                seq![UdevSignal::Lease]
            } else {
                seq![]
            };
            first + hot + lease
        }
    } else if d.subsystem@ == "backlight"@ && action == "change"@ {
        seq![UdevSignal::BacklightChanged]
    } else {
        seq![]
    }
}

impl Udev {
    /// Whether the event handler is active, as a spec value.
    pub closed spec fn spec_handler_active(&self) -> bool {
        self.handler_active
    }

    /// Whether the backend runs without outputs, as a spec value.
    pub closed spec fn spec_headless(&self) -> bool {
        self.headless
    }

    /// The seat id, as a spec value.
    pub closed spec fn spec_seat_id(&self) -> Option<Seq<char>> {
        match self.seat_id {
            Some(s) => Some(s@),
            None => None,
        }
    }

    /// Handling events, not headless, no seat.
    pub fn new() -> (u: Self)
        ensures
            u.spec_handler_active(),
            !u.spec_headless(),
            u.spec_seat_id() is None,
    {
        Udev { handler_active: true, headless: false, seat_id: None }
    }

    /// Sets whether the backend runs without outputs.
    pub fn set_headless(&mut self, headless: bool)
        ensures
            final(self).spec_headless() == headless,
            final(self).spec_handler_active() == old(self).spec_handler_active(),
            final(self).spec_seat_id() == old(self).spec_seat_id(),
    {
        self.headless = headless;
    }

    /// Sets the seat id.
    pub fn set_seat_id(&mut self, seat_id: Option<String>)
        ensures
            final(self).spec_seat_id() == match seat_id {
                Some(s) => Some(s@),
                None => None::<Seq<char>>,
            },
            final(self).spec_handler_active() == old(self).spec_handler_active(),
            final(self).spec_headless() == old(self).spec_headless(),
    {
        self.seat_id = seat_id;
    }

    /// Whether `device` is a DRM device of this session's seat.
    pub fn is_drm_device(&self, device: &UdevDevice) -> (r: bool)
        ensures
            r == spec_is_drm_device(self.spec_headless(), self.spec_seat_id(), *device),
    {
        if device.node_type != DeviceNodeType::Char {
            return false;
        }
        match device.property("DEVTYPE") {
            Some(t) => {
                if !str_eq(t, "drm_minor") {
                    return false;
                }
            },
            None => {
                return false;
            },
        }
        if !self.headless {
            let device_seat = match device.property("ID_SEAT") {
                Some(s) => s,
                None => "seat0",
            };
            let seat: &str = match &self.seat_id {
                Some(seat) => seat.as_str(),
                None => "seat0",
            };
            if !str_eq(seat, device_seat) {
                return false;
            }
        }
        true
    }

    /// The candidates that are DRM devices of this seat, in order.
    pub fn list_drm_devices(&self, _device_type: UdevDeviceType, candidates: Vec<UdevDevice>) -> (r:
        Vec<UdevDevice>)
        ensures
            r@ == candidates@.filter(
                |d: UdevDevice| spec_is_drm_device(self.spec_headless(), self.spec_seat_id(), d),
            ),
    {
        let ghost f = |d: UdevDevice| spec_is_drm_device(self.spec_headless(), self.spec_seat_id(), d);
        let ghost all = candidates@;
        let _n = candidates.len();
        let mut rest = candidates;
        let mut out: Vec<UdevDevice> = Vec::new();
        let mut i: usize = 0;
        assert(all.skip(0) =~= all);
        assert(all.take(0) =~= Seq::<UdevDevice>::empty());
        while rest.len() > 0
            invariant
                i <= all.len(),
                all.len() <= usize::MAX,
                rest@ == all.skip(i as int),
                out@ == all.take(i as int).filter(f),
                f == (|d: UdevDevice|
                    spec_is_drm_device(self.spec_headless(), self.spec_seat_id(), d)),
            decreases rest@.len(),
        {
            assert(i < all.len());
            let d = rest.remove(0);
            assert(d == all[i as int]);
            assert(all.take(i + 1).drop_last() =~= all.take(i as int));
            reveal_with_fuel(Seq::filter, 1);
            if self.is_drm_device(&d) {
                out.push(d);
            }
            i += 1;
            assert(rest@ =~= all.skip(i as int));
        }
        assert(all.take(i as int) =~= all);
        out
    }

    /// The signals that an event with `action` on `device` announces;
    /// none while event handling is paused.
    pub fn handle_uevent(&self, action: &str, device: &UdevDevice) -> (r: Vec<UdevSignal>)
        ensures
            r@ == spec_uevent_signals(self.spec_handler_active(), action@, *device),
    {
        let mut signals: Vec<UdevSignal> = Vec::new();
        if !self.handler_active {
            return signals;
        }
        if str_eq(device.subsystem.as_str(), "drm") {
            if device.device_file.is_none() {
                return signals;
            }
            if str_eq(action, "add") {
                signals.push(UdevSignal::DeviceAdded);
            } else if str_eq(action, "remove") {
                signals.push(UdevSignal::DeviceRemoved);
            }
            let ghost first = signals@;
            if device.property_as_bool("HOTPLUG") {
                signals.push(UdevSignal::Hotplug);
            }
            let ghost second = signals@;
            if device.property_as_bool("LEASE") {
                signals.push(UdevSignal::Lease);
            }
            assert(signals@ =~= spec_uevent_signals(self.spec_handler_active(), action@, *device));
        } else if str_eq(device.subsystem.as_str(), "backlight") {
            if str_eq(action, "change") {
                signals.push(UdevSignal::BacklightChanged);
            }
            proof {
                reveal_strlit("drm");
                reveal_strlit("backlight");
            }
            assert(signals@ =~= spec_uevent_signals(self.spec_handler_active(), action@, *device));
        } else {
            assert(signals@ =~= spec_uevent_signals(self.spec_handler_active(), action@, *device));
        }
        signals
    }

    /// Stops handling events.
    pub fn pause(&mut self)
        ensures
            !final(self).spec_handler_active(),
            final(self).spec_headless() == old(self).spec_headless(),
            final(self).spec_seat_id() == old(self).spec_seat_id(),
    {
        self.handler_active = false;
    }

    /// Resumes handling events.
    pub fn resume(&mut self)
        ensures
            final(self).spec_handler_active(),
            final(self).spec_headless() == old(self).spec_headless(),
            final(self).spec_seat_id() == old(self).spec_seat_id(),
    {
        self.handler_active = true;
    }
}

impl Default for Udev {
    fn default() -> (u: Self)
        ensures
            u.spec_handler_active(),
            !u.spec_headless(),
            u.spec_seat_id() is None,
    {
        Udev::new()
    }
}

/// The device is a backlight of sysfs `type` `t`.
pub open spec fn has_type(d: UdevDevice, t: Seq<char>) -> bool {
    d.spec_sysfs_attr("type"@) == Some(t)
}

/// The index of the first device satisfying `p`.
pub open spec fn first_index(devices: Seq<UdevDevice>, p: spec_fn(UdevDevice) -> bool) -> Option<int> {
    if exists|i: int| 0 <= i < devices.len() && p(devices[i]) {
        Some(
            choose|i: int|
                0 <= i < devices.len() && p(devices[i]) && forall|j: int| 0 <= j < i ==> !p(devices[j]),
        )
    } else {
        None
    }
}

/// `r` is the first device satisfying `p`, or `None` when there is none.
pub open spec fn found_first(devices: Seq<UdevDevice>, p: spec_fn(UdevDevice) -> bool, r: Option<&UdevDevice>) -> bool {
    match r {
        Some(d) => exists|i: int|
            0 <= i < devices.len() && p(devices[i]) && *d == devices[i] && forall|j: int|
                0 <= j < i ==> !p(devices[j]),
        None => forall|i: int| 0 <= i < devices.len() ==> !p(devices[i]),
    }
}

/// The first device whose sysfs `type` is `type_`.
pub fn backlight_find_type<'a>(devices: &'a [UdevDevice], type_: &str) -> (r: Option<&'a UdevDevice>)
    ensures
        found_first(devices@, |d: UdevDevice| has_type(d, type_@), r),
{
    let ghost p = |d: UdevDevice| has_type(d, type_@);
    let mut i: usize = 0;
    while i < devices.len()
        invariant
            i <= devices@.len(),
            p == (|d: UdevDevice| has_type(d, type_@)),
            forall|j: int| 0 <= j < i ==> !p(devices@[j]),
        decreases devices@.len() - i,
    {
        let t = devices[i].sysfs_attr("type");
        let matched = match t {
            Some(v) => str_eq(v, type_),
            None => false,
        };
        if matched {
            return Some(&devices[i]);
        }
        i += 1;
    }
    None
}

/// The device is a raw backlight whose DRM connector parent is named
/// `card<n>-<connector>` and is enabled.
pub open spec fn is_connector_backlight(d: UdevDevice, connector: Seq<char>) -> bool {
    &&& has_type(d, "raw"@)
    &&& d.spec_parent("drm"@ + "/"@ + "drm_connector"@) matches Some(parent)
    &&& spec_ends_with(parent.name@, "-"@ + connector)
    &&& parent.spec_sysfs_attr("enabled"@) == Some("enabled"@)
}

/// The first raw backlight of an enabled DRM connector named
/// `connector_name`.
pub fn backlight_find_for_connector<'a>(devices: &'a [UdevDevice], connector_name: &str) -> (r:
    Option<&'a UdevDevice>)
    ensures
        found_first(devices@, |d: UdevDevice| is_connector_backlight(d, connector_name@), r),
{
    let ghost p = |d: UdevDevice| is_connector_backlight(d, connector_name@);
    let mut connector_suffix = String::from_str("-");
    connector_suffix.append(connector_name);
    let mut i: usize = 0;
    while i < devices.len()
        invariant
            i <= devices@.len(),
            p == (|d: UdevDevice| is_connector_backlight(d, connector_name@)),
            connector_suffix@ == "-"@ + connector_name@,
            forall|j: int| 0 <= j < i ==> !p(devices@[j]),
        decreases devices@.len() - i,
    {
        let device = &devices[i];
        let is_raw = match device.sysfs_attr("type") {
            Some(v) => str_eq(v, "raw"),
            None => false,
        };
        if is_raw {
            if let Some(parent) = device.parent_with_subsystem_devtype("drm", "drm_connector") {
                if ends_with(parent.name.as_str(), connector_suffix.as_str()) {
                    let enabled = match parent.sysfs_attr("enabled") {
                        Some(v) => str_eq(v, "enabled"),
                        None => false,
                    };
                    if enabled {
                        return Some(device);
                    }
                }
            }
        }
        i += 1;
    }
    None
}

/// The backlight for a connector: for an internal monitor a firmware,
/// else a platform backlight; else the raw backlight of the connector;
/// else, for an internal monitor, the first raw backlight.
pub open spec fn spec_backlight_find(
    devices: Seq<UdevDevice>,
    connector: Seq<char>,
    is_internal: bool,
    r: Option<&UdevDevice>,
) -> bool {
    let firmware = |d: UdevDevice| has_type(d, "firmware"@);
    let platform = |d: UdevDevice| has_type(d, "platform"@);
    let raw = |d: UdevDevice| has_type(d, "raw"@);
    let conn = |d: UdevDevice| is_connector_backlight(d, connector);
    let none_of = |q: spec_fn(UdevDevice) -> bool| forall|i: int| 0 <= i < devices.len() ==> !q(devices[i]);
    if devices.len() == 0 {
        r is None
    } else if is_internal && !none_of(firmware) {
        found_first(devices, firmware, r)
    } else if is_internal && !none_of(platform) {
        found_first(devices, platform, r)
    } else if !none_of(conn) {
        found_first(devices, conn, r)
    } else if is_internal {
        found_first(devices, raw, r)
    } else {
        r is None
    }
}

/// Chooses the backlight device for a connector.
pub fn backlight_find<'a>(devices: &'a [UdevDevice], connector_name: &str, is_internal: bool) -> (r:
    Option<&'a UdevDevice>)
    ensures
        spec_backlight_find(devices@, connector_name@, is_internal, r),
{
    if devices.len() == 0 {
        return None;
    }
    if is_internal {
        if let Some(d) = backlight_find_type(devices, "firmware") {
            return Some(d);
        }
        if let Some(d) = backlight_find_type(devices, "platform") {
            return Some(d);
        }
    }
    if let Some(d) = backlight_find_for_connector(devices, connector_name) {
        return Some(d);
    }
    if is_internal {
        return backlight_find_type(devices, "raw");
    }
    None
}

} // verus!
