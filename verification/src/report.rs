//! The records handed to the display layer: the interface list in its
//! outward shape, and the log row for one captured record. Rendering them is
//! the display collaborator's work.

use vstd::prelude::*;

use crate::interfaces::NetworkInterfaceModel;
use crate::text::clone_strings;

verus! {

/// One interface as the display layer receives it. It mirrors
/// `interfaces::NetworkInterface`, with activity under the name `is_up`.
#[derive(Clone, Debug)]
pub struct NetworkInterface {
    pub name: String,
    pub description: String,
    pub addresses: Vec<String>,
    pub is_loopback: bool,
    pub is_up: bool,
    pub real_name: String,
}

/// The mathematical value of a displayed interface.
pub struct FrontInterfaceModel {
    pub name: Seq<char>,
    pub description: Seq<char>,
    pub addresses: Seq<Seq<char>>,
    pub is_loopback: bool,
    pub is_up: bool,
    pub real_name: Seq<char>,
}

impl View for NetworkInterface {
    type V = FrontInterfaceModel;

    open spec fn view(&self) -> FrontInterfaceModel {
        FrontInterfaceModel {
            name: self.name@,
            description: self.description@,
            addresses: self.addresses.deep_view(),
            is_loopback: self.is_loopback,
            is_up: self.is_up,
            real_name: self.real_name@,
        }
    }
}

impl DeepView for NetworkInterface {
    type V = FrontInterfaceModel;

    open spec fn deep_view(&self) -> FrontInterfaceModel {
        self.view()
    }
}

/// One decoded record as the display layer logs it, every field already
/// rendered as text.
#[derive(Clone, Debug)]
pub struct DHCPLog {
    pub timestamp: String,
    pub packet_type: String,
    pub source_ip: String,
    pub destination_ip: String,
    pub option_50: Option<String>,
    pub interface: String,
    pub raw_data: String,
}

/// How one classified interface maps to its displayed shape: field for field,
/// with `is_active` carried as `is_up`.
pub open spec fn spec_to_front(m: NetworkInterfaceModel) -> FrontInterfaceModel {
    FrontInterfaceModel {
        name: m.name,
        description: m.description,
        addresses: m.addresses,
        is_loopback: m.is_loopback,
        is_up: m.is_active,
        real_name: m.real_name,
    }
}

/// Reshapes the classified interface list for the display layer, in order,
/// carrying `is_active` as `is_up`.
pub fn get_interfaces(ifaces: Vec<crate::interfaces::NetworkInterface>) -> (r: Vec<
    NetworkInterface,
>)
    ensures
        r.deep_view() == ifaces.deep_view().map_values(|m: NetworkInterfaceModel| spec_to_front(m)),
{
    let ghost iv = ifaces.deep_view();
    let n = ifaces.len();
    let mut r: Vec<NetworkInterface> = Vec::new();
    let mut i: usize = 0;
    while i < n
        invariant
            n == ifaces@.len(),
            iv == ifaces.deep_view(),
            i <= n,
            r@.len() == i,
            forall|k: int| 0 <= k < i ==> r.deep_view()[k] == spec_to_front(iv[k]),
        decreases n - i,
    {
        proof {
            assert(iv[i as int] == ifaces@[i as int]@);
        }
        let src = &ifaces[i];
        let item = NetworkInterface {
            name: src.name.clone(),
            description: src.description.clone(),
            addresses: clone_strings(&src.addresses),
            is_loopback: src.is_loopback,
            is_up: src.is_active,
            real_name: src.real_name.clone(),
        };
        let ghost old_dv = r.deep_view();
        let ghost item_model = item.deep_view();
        r.push(item);
        proof {
            assert(r.deep_view() =~= old_dv.push(item_model));
            assert(item_model == spec_to_front(iv[i as int]));
        }
        i = i + 1;
    }
    proof {
        assert(r.deep_view() =~= iv.map_values(|m: NetworkInterfaceModel| spec_to_front(m)));
    }
    r
}

} // verus!
