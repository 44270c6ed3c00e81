//! The device-naming layer: turns raw adapter descriptions into the
//! human-readable interface records the caller displays.

use vstd::prelude::*;
use vstd::utf8::encode_utf8;

use crate::resolver::{DeviceDescriptor, DeviceModel};
use crate::text::{
    clone_strings, contains_seq, contains_str, lower_of, lowercase, match_at, spec_decimal,
    spec_split_ws, split_whitespace_parts, starts_with_str, str_eq, u32_to_string,
};

verus! {

/// The fallback label for a device with no usable description.
pub open spec fn spec_default_name() -> Seq<char> {
    "Interface Réseau"@
}

/// One network interface as presented to the caller.
#[derive(Clone, Debug)]
pub struct NetworkInterface {
    pub name: String,
    pub description: String,
    pub addresses: Vec<String>,
    pub is_loopback: bool,
    pub is_active: bool,
    pub real_name: String,
}

/// The mathematical value of a presented interface.
pub struct NetworkInterfaceModel {
    pub name: Seq<char>,
    pub description: Seq<char>,
    pub addresses: Seq<Seq<char>>,
    pub is_loopback: bool,
    pub is_active: bool,
    pub real_name: Seq<char>,
}

impl View for NetworkInterface {
    type V = NetworkInterfaceModel;

    open spec fn view(&self) -> NetworkInterfaceModel {
        NetworkInterfaceModel {
            name: self.name@,
            description: self.description@,
            addresses: self.addresses.deep_view(),
            is_loopback: self.is_loopback,
            is_active: self.is_active,
            real_name: self.real_name@,
        }
    }
}

impl DeepView for NetworkInterface {
    type V = NetworkInterfaceModel;

    open spec fn deep_view(&self) -> NetworkInterfaceModel {
        self.view()
    }
}

/// Counter threaded through naming, so that repeated generic Microsoft
/// interfaces get distinct labels.
#[derive(Clone, Copy, Debug, PartialEq, Eq, Structural)]
pub struct NameCounts {
    pub microsoft: u32,
}

impl NameCounts {
    pub fn new() -> (r: NameCounts)
        ensures
            r == (NameCounts { microsoft: 0u32 }),
    {
        NameCounts { microsoft: 0 }
    }
}

/// Whether a word of a description is kept when a meaningful name is
/// extracted: longer than two bytes and not one of the generic words.
pub open spec fn spec_keep_part(p: Seq<char>) -> bool {
    encode_utf8(p).len() as usize > 2 && lower_of(p) != "microsoft"@ && lower_of(p) != "adapter"@
        && lower_of(p) != "network"@ && lower_of(p) != "interface"@
}

/// The first at most two kept words of `parts` from position `i` onward,
/// appended to `acc`.
pub open spec fn spec_first_meaningful(parts: Seq<Seq<char>>, i: int, acc: Seq<Seq<char>>) -> Seq<
    Seq<char>,
>
    decreases parts.len() - i,
{
    if i < 0 || i >= parts.len() || acc.len() >= 2 {
        acc
    } else if spec_keep_part(parts[i]) {
        spec_first_meaningful(parts, i + 1, acc.push(parts[i]))
    } else {
        spec_first_meaningful(parts, i + 1, acc)
    }
}

/// What `extract_meaningful_name` returns: when the description has more than
/// two words, the first at most two non-generic words joined by one space,
/// and the fallback label when there are none (or too few words overall).
pub open spec fn spec_extract_meaningful_name(desc: Seq<char>) -> Seq<char> {
    let parts = spec_split_ws(desc);
    if parts.len() > 2 {
        let chosen = spec_first_meaningful(parts, 0, Seq::empty());
        if chosen.len() == 0 {
            spec_default_name()
        } else if chosen.len() == 1 {
            chosen[0]
        } else {
            chosen[0] + " "@ + chosen[1]
        }
    } else {
        spec_default_name()
    }
}

/// Picks a short human name out of a free-form adapter description by
/// dropping generic words and keeping at most the first two of the rest.
pub fn extract_meaningful_name(description: &str) -> (r: String)
    ensures
        r@ == spec_extract_meaningful_name(description@),
{
    let parts = split_whitespace_parts(description);
    let n = parts.len();
    if n > 2 {
        let ghost pv = parts.deep_view();
        let mut chosen: Vec<String> = Vec::new();
        proof {
            assert(chosen.deep_view() =~= Seq::<Seq<char>>::empty());
        }
        let mut i: usize = 0;
        while i < n
            invariant
                n == parts@.len(),
                pv == parts.deep_view(),
                i <= n,
                chosen@.len() <= 2,
                spec_first_meaningful(pv, 0, Seq::empty()) == spec_first_meaningful(
                    pv,
                    i as int,
                    chosen.deep_view(),
                ),
            decreases n - i,
        {
            proof {
                assert(pv[i as int] == parts@[i as int]@);
            }
            let word = &parts[i];
            let ghost pre_dv = chosen.deep_view();
            proof {
                assert(pre_dv.len() == chosen@.len());
            }
            if chosen.len() < 2 {
                let keep = word.as_str().len() > 2 && !str_eq(
                    lowercase(word.as_str()).as_str(),
                    "microsoft",
                ) && !str_eq(lowercase(word.as_str()).as_str(), "adapter") && !str_eq(
                    lowercase(word.as_str()).as_str(),
                    "network",
                ) && !str_eq(lowercase(word.as_str()).as_str(), "interface");
                proof {
                    assert(keep == spec_keep_part(pv[i as int]));
                }
                if keep {
                    chosen.push(word.clone());
                    proof {
                        assert(chosen.deep_view() =~= pre_dv.push(pv[i as int]));
                        assert(spec_first_meaningful(pv, i as int, pre_dv)
                            == spec_first_meaningful(pv, i as int + 1, chosen.deep_view()));
                    }
                } else {
                    proof {
                        assert(spec_first_meaningful(pv, i as int, pre_dv)
                            == spec_first_meaningful(pv, i as int + 1, pre_dv));
                    }
                }
            } else {
                proof {
                    assert(spec_first_meaningful(pv, i as int, pre_dv) == pre_dv);
                    assert(spec_first_meaningful(pv, i as int + 1, pre_dv) == pre_dv);
                }
            }
            i = i + 1;
        }
        if chosen.len() == 0 {
            String::from_str("Interface Réseau")
        } else if chosen.len() == 1 {
            proof {
                assert(chosen.deep_view()[0] == chosen@[0]@);
            }
            chosen[0].clone()
        } else {
            proof {
                assert(chosen.deep_view()[0] == chosen@[0]@);
                assert(chosen.deep_view()[1] == chosen@[1]@);
            }
            let mut joined = chosen[0].clone();
            joined.append(" ");
            joined.append(chosen[1].as_str());
            joined
        }
    } else {
        String::from_str("Interface Réseau")
    }
}

/// Whether the platform device name is a raw capture path rather than a
/// human-usable name.
pub open spec fn spec_is_raw_device_name(dev: Seq<char>) -> bool {
    match_at(dev, "\\Device\\NPF_"@, 0)
}

/// What `generate_clean_name` returns and how it moves the Microsoft counter:
/// the pair of the label and the new counter value.
pub open spec fn spec_clean_name(desc: Seq<char>, dev: Seq<char>, microsoft_count: nat) -> (
    Seq<char>,
    nat,
) {
    if !spec_is_raw_device_name(dev) {
        (dev, microsoft_count)
    } else {
        let dl = lower_of(desc);
        if contains_seq(dl, "ethernet"@) || contains_seq(dl, "gigabit"@) || contains_seq(
            dl,
            "network adapter"@,
        ) {
            if contains_seq(dl, "aquantia"@) {
                ("Ethernet (Aquantia)"@, microsoft_count)
            } else if contains_seq(dl, "intel"@) {
                ("Ethernet (Intel)"@, microsoft_count)
            } else if contains_seq(dl, "realtek"@) {
                ("Ethernet (Realtek)"@, microsoft_count)
            } else {
                ("Ethernet"@, microsoft_count)
            }
        } else if contains_seq(dl, "wifi"@) || contains_seq(dl, "wireless"@) || contains_seq(
            dl,
            "802.11"@,
        ) {
            ("Wi-Fi"@, microsoft_count)
        } else if contains_seq(dl, "bluetooth"@) {
            ("Bluetooth"@, microsoft_count)
        } else if contains_seq(dl, "loopback"@) {
            ("Loopback"@, microsoft_count)
        } else if contains_seq(dl, "virtual"@) || contains_seq(dl, "hyper-v"@) {
            ("Interface Virtuelle"@, microsoft_count)
        } else if contains_seq(dl, "microsoft"@) {
            if contains_seq(dl, "kernel"@) {
                ("Interface Kernel"@, microsoft_count)
            } else {
                let n = microsoft_count + 1;
                if n == 1 {
                    ("Interface Microsoft"@, n)
                } else {
                    ("Interface Microsoft "@ + spec_decimal(n), n)
                }
            }
        } else {
            (spec_extract_meaningful_name(desc), microsoft_count)
        }
    }
}

/// Maps a raw adapter description and platform device name to a human label,
/// counting repeated generic Microsoft interfaces so their labels stay
/// distinct. A device name that is not a raw capture path is kept as it is.
pub fn generate_clean_name(description: &str, device_name: &str, counts: &mut NameCounts) -> (r:
    String)
    requires
        old(counts).microsoft < u32::MAX,
    ensures
        r@ == spec_clean_name(description@, device_name@, old(counts).microsoft as nat).0,
        final(counts).microsoft as nat == spec_clean_name(
            description@,
            device_name@,
            old(counts).microsoft as nat,
        ).1,
{
    if !starts_with_str(device_name, "\\Device\\NPF_") {
        return String::from_str(device_name);
    }
    let dl = lowercase(description);
    let d = dl.as_str();
    if contains_str(d, "ethernet") || contains_str(d, "gigabit") || contains_str(
        d,
        "network adapter",
    ) {
        if contains_str(d, "aquantia") {
            String::from_str("Ethernet (Aquantia)")
        } else if contains_str(d, "intel") {
            String::from_str("Ethernet (Intel)")
        } else if contains_str(d, "realtek") {
            String::from_str("Ethernet (Realtek)")
        } else {
            String::from_str("Ethernet")
        }
    } else if contains_str(d, "wifi") || contains_str(d, "wireless") || contains_str(d, "802.11") {
        String::from_str("Wi-Fi")
    } else if contains_str(d, "bluetooth") {
        String::from_str("Bluetooth")
    } else if contains_str(d, "loopback") {
        String::from_str("Loopback")
    } else if contains_str(d, "virtual") || contains_str(d, "hyper-v") {
        String::from_str("Interface Virtuelle")
    } else if contains_str(d, "microsoft") {
        if contains_str(d, "kernel") {
            String::from_str("Interface Kernel")
        } else {
            counts.microsoft = counts.microsoft + 1;
            if counts.microsoft == 1 {
                String::from_str("Interface Microsoft")
            } else {
                let mut label = String::from_str("Interface Microsoft ");
                label.append(u32_to_string(counts.microsoft).as_str());
                label
            }
        }
    } else {
        extract_meaningful_name(description)
    }
}

/// How one device becomes one presented interface, moving the Microsoft
/// counter: a device counts as active when it has addresses or when its
/// description marks it neither loopback nor virtual nor kernel.
pub open spec fn spec_classify_device(dev: DeviceModel, microsoft_count: nat) -> (
    NetworkInterfaceModel,
    nat,
) {
    let description = match dev.desc {
        Some(d) => d,
        None => spec_default_name(),
    };
    let dl = lower_of(description);
    let has_addresses = dev.addresses.len() > 0;
    let is_loopback = contains_seq(dl, "loopback"@);
    let is_not_virtual = !contains_seq(dl, "virtual"@) && !contains_seq(dl, "hyper-v"@);
    let is_not_kernel = !contains_seq(dl, "kernel"@);
    let named = spec_clean_name(description, dev.name, microsoft_count);
    (
        NetworkInterfaceModel {
            name: named.0,
            description: description,
            addresses: dev.addresses,
            is_loopback: is_loopback,
            is_active: has_addresses || (!is_loopback && is_not_virtual && is_not_kernel),
            real_name: dev.name,
        },
        named.1,
    )
}

/// The presented interfaces for a device list, in order, with the Microsoft
/// counter threaded through.
pub open spec fn spec_classify_devices(devs: Seq<DeviceModel>, microsoft_count: nat) -> Seq<
    NetworkInterfaceModel,
>
    decreases devs.len(),
{
    if devs.len() == 0 {
        Seq::empty()
    } else {
        let first = spec_classify_device(devs[0], microsoft_count);
        seq![first.0] + spec_classify_devices(devs.drop_first(), first.1)
    }
}

/// The single synthetic device offered when enumeration is unavailable; its
/// classification is an active, non-loopback Ethernet entry.
pub fn fallback_devices() -> (r: Vec<DeviceDescriptor>)
    ensures
        r.deep_view().len() == 1,
        r.deep_view()[0].name == "Ethernet"@,
        r.deep_view()[0].desc == Some("Carte réseau Ethernet (fallback)"@),
        r.deep_view()[0].addresses.len() == 1,
        r.deep_view()[0].addresses[0] == "192.168.1.100"@,
{
    let mut addresses: Vec<String> = Vec::new();
    addresses.push(String::from_str("192.168.1.100"));
    let dev = DeviceDescriptor {
        name: String::from_str("Ethernet"),
        desc: Some(String::from_str("Carte réseau Ethernet (fallback)")),
        addresses,
    };
    let mut r: Vec<DeviceDescriptor> = Vec::new();
    r.push(dev);
    proof {
        assert(r.deep_view()[0] == r@[0]@);
        assert(r@[0]@.addresses[0] == r@[0].addresses@[0]@);
    }
    r
}

/// Builds the presented interface list from one refreshed device list, in
/// device order. This is what the caller shows; the enumeration itself is the
/// collaborator's.
pub fn classify_devices(devices: &Vec<DeviceDescriptor>) -> (r: Vec<NetworkInterface>)
    requires
        devices@.len() < u32::MAX,
    ensures
        r.deep_view() == spec_classify_devices(devices.deep_view(), 0),
{
    let n = devices.len();
    let mut counts = NameCounts::new();
    let mut r: Vec<NetworkInterface> = Vec::new();
    let ghost dv = devices.deep_view();
    proof {
        assert(r.deep_view() =~= Seq::<NetworkInterfaceModel>::empty());
        assert(dv.skip(0) =~= dv);
    }
    let mut i: usize = 0;
    while i < n
        invariant
            n == devices@.len(),
            n < u32::MAX,
            dv == devices.deep_view(),
            dv.len() == n,
            i <= n,
            counts.microsoft <= i,
            spec_classify_devices(dv, 0) =~= r.deep_view() + spec_classify_devices(
                dv.skip(i as int),
                counts.microsoft as nat,
            ),
        decreases n - i,
    {
        proof {
            assert(dv[i as int] == devices@[i as int]@);
            assert(dv.skip(i as int)[0] == dv[i as int]);
            assert(dv.skip(i as int).drop_first() =~= dv.skip(i as int + 1));
        }
        let dev = &devices[i];
        let description: String = match &dev.desc {
            Some(d) => d.clone(),
            None => String::from_str("Interface Réseau"),
        };
        let dl = lowercase(description.as_str());
        let has_addresses = dev.addresses.len() > 0;
        let is_loopback = contains_str(dl.as_str(), "loopback");
        let is_not_virtual = !contains_str(dl.as_str(), "virtual") && !contains_str(
            dl.as_str(),
            "hyper-v",
        );
        let is_not_kernel = !contains_str(dl.as_str(), "kernel");
        let is_active = has_addresses || (!is_loopback && is_not_virtual && is_not_kernel);
        let name = generate_clean_name(description.as_str(), dev.name.as_str(), &mut counts);
        let ghost old_rdv = r.deep_view();
        let ghost step = spec_classify_device(dv[i as int], 0);
        let item = NetworkInterface {
            name,
            description,
            addresses: clone_strings(&dev.addresses),
            is_loopback,
            is_active,
            real_name: dev.name.clone(),
        };
        let ghost item_model = item.deep_view();
        r.push(item);
        proof {
            assert(r.deep_view() =~= old_rdv.push(item_model));
            assert(old_rdv + (seq![item_model] + spec_classify_devices(
                dv.skip(i as int + 1),
                counts.microsoft as nat,
            )) =~= old_rdv.push(item_model) + spec_classify_devices(
                dv.skip(i as int + 1),
                counts.microsoft as nat,
            ));
        }
        i = i + 1;
    }
    proof {
        assert(dv.skip(n as int) =~= Seq::<DeviceModel>::empty());
    }
    r
}

} // verus!
