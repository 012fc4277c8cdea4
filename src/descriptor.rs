//! Snapshots of USB descriptors and the CDC-ACM interface matcher.
use vstd::prelude::*;

use crate::error::SerialError;

verus! {

/// Interface class of a CDC Communication interface.
pub const USB_INTR_CLASS_COMM: u8 = 0x02;

/// Interface subclass of the Abstract Control Model.
pub const USB_INTR_SUBCLASS_ACM: u8 = 0x02;

/// Interface class of a CDC Data interface.
pub const USB_INTR_CLASS_CDC_DATA: u8 = 0x0A;

/// Direction of an endpoint, seen from the host.
#[derive(Debug, Clone, Copy, PartialEq, Eq, Structural)]
pub enum Direction {
    In,
    Out,
}

/// Transfer type of an endpoint.
#[derive(Debug, Clone, Copy, PartialEq, Eq, Structural)]
pub enum TransferType {
    Control,
    Isochronous,
    Bulk,
    Interrupt,
}

/// An endpoint of an interface alternate setting.
#[derive(Debug, Clone, Copy, PartialEq, Eq, Structural)]
pub struct EndpointInfo {
    pub number: u8,
    /// Endpoint address; bit 7 carries the direction.
    pub address: u8,
    pub direction: Direction,
    pub transfer_type: TransferType,
    pub max_packet_size: u16,
    pub interval: u8,
}

/// One alternate setting of an interface, with its endpoints in order.
#[derive(Debug, Clone)]
pub struct AltSetting {
    pub alternate_setting: u8,
    pub endpoints: Vec<EndpointInfo>,
}

/// Interface attributes captured when the device was enumerated.
#[derive(Debug, Clone, Copy, PartialEq, Eq, Structural)]
pub struct InterfaceInfo {
    pub interface_number: u8,
    /// Absent where the platform does not report it.
    pub alternate_setting: Option<u8>,
    pub class: u8,
    pub sub_class: u8,
    pub protocol: u8,
    pub num_endpoints: u8,
}

/// Device attributes captured when the device was enumerated; never updated.
#[derive(Debug, Clone)]
pub struct DeviceInfo {
    pub vendor_id: u16,
    pub product_id: u16,
    pub class: u8,
    pub subclass: u8,
    pub protocol: u8,
    /// Platform path of the device (usually its usbfs path).
    pub path_name: String,
    pub manufacturer_string: Option<String>,
    pub product_string: Option<String>,
    pub version: Option<String>,
    pub serial_number: Option<String>,
    pub interfaces: Vec<InterfaceInfo>,
}

pub open spec fn opt_text(o: Option<String>) -> Option<Seq<char>> {
    match o {
        Some(s) => Some(s@),
        None => None,
    }
}

/// Two snapshots denote the same device when vendor id, product id, path and
/// serial number agree; classes are not compared.
pub open spec fn same_device(a: DeviceInfo, b: DeviceInfo) -> bool {
    &&& a.vendor_id == b.vendor_id
    &&& a.product_id == b.product_id
    &&& a.path_name@ == b.path_name@
    &&& opt_text(a.serial_number) == opt_text(b.serial_number)
}

fn opt_text_eq(a: &Option<String>, b: &Option<String>) -> (r: bool)
    ensures
        r == (opt_text(*a) == opt_text(*b)),
{
    match (a, b) {
        (Some(x), Some(y)) => *x == *y,
        (None, None) => true,
        _ => false,
    }
}

impl PartialEq for DeviceInfo {
    fn eq(&self, other: &DeviceInfo) -> (r: bool) {
        self.vendor_id == other.vendor_id && self.product_id == other.product_id
            && self.path_name == other.path_name && opt_text_eq(
            &self.serial_number,
            &other.serial_number,
        )
    }
}

impl vstd::std_specs::cmp::PartialEqSpecImpl for DeviceInfo {
    open spec fn obeys_eq_spec() -> bool {
        true
    }

    open spec fn eq_spec(&self, other: &DeviceInfo) -> bool {
        same_device(*self, *other)
    }
}

pub open spec fn is_comm_acm(i: InterfaceInfo) -> bool {
    i.class == USB_INTR_CLASS_COMM && i.sub_class == USB_INTR_SUBCLASS_ACM
}

pub open spec fn is_cdc_data(i: InterfaceInfo) -> bool {
    i.class == USB_INTR_CLASS_CDC_DATA
}

/// The first Communication/ACM interface of a list.
pub open spec fn first_comm(s: Seq<InterfaceInfo>) -> Option<InterfaceInfo>
    decreases s.len(),
{
    if s.len() == 0 {
        None
    } else if is_comm_acm(s[0]) {
        Some(s[0])
    } else {
        first_comm(s.skip(1))
    }
}

/// The first CDC Data interface of a list.
pub open spec fn first_data(s: Seq<InterfaceInfo>) -> Option<InterfaceInfo>
    decreases s.len(),
{
    if s.len() == 0 {
        None
    } else if is_cdc_data(s[0]) {
        Some(s[0])
    } else {
        first_data(s.skip(1))
    }
}

/// The (Communication, Data) pair of a CDC-ACM device, if it has both.
pub open spec fn cdc_interfaces(s: Seq<InterfaceInfo>) -> Option<(InterfaceInfo, InterfaceInfo)> {
    match (first_comm(s), first_data(s)) {
        (Some(c), Some(d)) => Some((c, d)),
        _ => None,
    }
}

pub open spec fn is_cdc_acm(d: DeviceInfo) -> bool {
    cdc_interfaces(d.interfaces@) is Some
}

/// The CDC-ACM devices of a list, in order.
pub open spec fn cdc_devices(s: Seq<DeviceInfo>) -> Seq<DeviceInfo> {
    s.filter(|d: DeviceInfo| is_cdc_acm(d))
}

/// The first bulk endpoint of the given direction.
pub open spec fn first_bulk(eps: Seq<EndpointInfo>, dir: Direction) -> Option<EndpointInfo>
    decreases eps.len(),
{
    if eps.len() == 0 {
        None
    } else if eps[0].transfer_type == TransferType::Bulk && eps[0].direction == dir {
        Some(eps[0])
    } else {
        first_bulk(eps.skip(1), dir)
    }
}

/// Addresses of the first bulk IN and the first bulk OUT endpoint, if both exist.
pub open spec fn bulk_pair(eps: Seq<EndpointInfo>) -> Option<(u8, u8)> {
    match (first_bulk(eps, Direction::In), first_bulk(eps, Direction::Out)) {
        (Some(i), Some(o)) => Some((i.address, o.address)),
        _ => None,
    }
}

/// The bulk pair of the first alternate setting that has one.
pub open spec fn select_bulk_pair(alts: Seq<AltSetting>) -> Option<(u8, u8)>
    decreases alts.len(),
{
    if alts.len() == 0 {
        None
    } else if bulk_pair(alts[0].endpoints@) is Some {
        bulk_pair(alts[0].endpoints@)
    } else {
        select_bulk_pair(alts.skip(1))
    }
}

fn find_comm(s: &Vec<InterfaceInfo>) -> (r: Option<InterfaceInfo>)
    ensures
        r == first_comm(s@),
{
    let mut i: usize = 0;
    assert(s@.skip(0) =~= s@);
    while i < s.len()
        invariant
            i <= s@.len(),
            first_comm(s@) == first_comm(s@.skip(i as int)),
        decreases s@.len() - i,
    {
        if s[i].class == USB_INTR_CLASS_COMM && s[i].sub_class == USB_INTR_SUBCLASS_ACM {
            return Some(s[i]);
        }
        assert(s@.skip(i as int).skip(1) =~= s@.skip(i + 1));
        i = i + 1;
    }
    None
}

fn find_data(s: &Vec<InterfaceInfo>) -> (r: Option<InterfaceInfo>)
    ensures
        r == first_data(s@),
{
    let mut i: usize = 0;
    assert(s@.skip(0) =~= s@);
    while i < s.len()
        invariant
            i <= s@.len(),
            first_data(s@) == first_data(s@.skip(i as int)),
        decreases s@.len() - i,
    {
        if s[i].class == USB_INTR_CLASS_CDC_DATA {
            return Some(s[i]);
        }
        assert(s@.skip(i as int).skip(1) =~= s@.skip(i + 1));
        i = i + 1;
    }
    None
}

fn find_bulk(eps: &Vec<EndpointInfo>, dir: Direction) -> (r: Option<EndpointInfo>)
    ensures
        r == first_bulk(eps@, dir),
{
    let mut i: usize = 0;
    assert(eps@.skip(0) =~= eps@);
    while i < eps.len()
        invariant
            i <= eps@.len(),
            first_bulk(eps@, dir) == first_bulk(eps@.skip(i as int), dir),
        decreases eps@.len() - i,
    {
        if eps[i].transfer_type == TransferType::Bulk && eps[i].direction == dir {
            return Some(eps[i]);
        }
        assert(eps@.skip(i as int).skip(1) =~= eps@.skip(i + 1));
        i = i + 1;
    }
    None
}

/// Interface matcher: the first Communication/ACM interface (class 0x02,
/// subclass 0x02) and the first CDC Data interface (class 0x0A) of the
/// device, or `None` if either is missing.
pub fn find_interfaces(dev: &DeviceInfo) -> (r: Option<(InterfaceInfo, InterfaceInfo)>)
    ensures
        r == cdc_interfaces(dev.interfaces@),
{
    match (find_comm(&dev.interfaces), find_data(&dev.interfaces)) {
        (Some(c), Some(d)) => Some((c, d)),
        _ => None,
    }
}

/// The interfaces to claim when opening a device; `NotACdcDevice` where the
/// matcher finds none.
pub fn select_interfaces(dev: &DeviceInfo) -> (r: Result<(InterfaceInfo, InterfaceInfo), SerialError>)
    ensures
        r == (match cdc_interfaces(dev.interfaces@) {
            Some(p) => Ok(p),
            None => Err(SerialError::NotACdcDevice),
        }),
{
    match find_interfaces(dev) {
        Some(p) => Ok(p),
        None => Err(SerialError::NotACdcDevice),
    }
}

/// Addresses (IN, OUT) of the bulk endpoints to use: from the first alternate
/// setting of the Data interface that has both a bulk IN and a bulk OUT
/// endpoint. No attempt is made to pick the setting with the most bandwidth.
pub fn find_bulk_endpoints(alts: &Vec<AltSetting>) -> (r: Result<(u8, u8), SerialError>)
    ensures
        r == (match select_bulk_pair(alts@) {
            Some(p) => Ok(p),
            None => Err(SerialError::EndpointsNotFound),
        }),
{
    let mut i: usize = 0;
    assert(alts@.skip(0) =~= alts@);
    while i < alts.len()
        invariant
            i <= alts@.len(),
            select_bulk_pair(alts@) == select_bulk_pair(alts@.skip(i as int)),
        decreases alts@.len() - i,
    {
        let r = find_bulk(&alts[i].endpoints, Direction::In);
        let w = find_bulk(&alts[i].endpoints, Direction::Out);
        if let (Some(r), Some(w)) = (r, w) {
            return Ok((r.address, w.address));
        }
        assert(alts@.skip(i as int).skip(1) =~= alts@.skip(i + 1));
        i = i + 1;
    }
    Err(SerialError::EndpointsNotFound)
}

/// The CDC-ACM devices of a list, in their order; the others are dropped
/// without error.
pub fn probe(devs: Vec<DeviceInfo>) -> (r: Vec<DeviceInfo>)
    ensures
        r@ == cdc_devices(devs@),
{
    let ghost all = devs@;
    let mut rest = devs;
    let mut r: Vec<DeviceInfo> = Vec::new();
    let mut k: usize = 0;
    let total = rest.len();
    proof {
        reveal(Seq::filter);
    }
    assert(cdc_devices(all.take(0)) =~= Seq::<DeviceInfo>::empty());
    while rest.len() > 0
        invariant
            k + rest@.len() == all.len(),
            all.len() == total,
            rest@ == all.skip(k as int),
            r@ == cdc_devices(all.take(k as int)),
        decreases rest@.len(),
    {
        let d = rest.remove(0);
        assert(all.take(k + 1).drop_last() =~= all.take(k as int));
        assert(all.take(k + 1).last() == d);
        let m = find_interfaces(&d);
        proof {
            reveal(Seq::filter);
        }
        assert(cdc_devices(all.take(k + 1)) == if is_cdc_acm(d) {
            cdc_devices(all.take(k as int)).push(d)
        } else {
            cdc_devices(all.take(k as int))
        });
        if m.is_some() {
            r.push(d);
        }
        k = k + 1;
        assert(rest@ =~= all.skip(k as int));
    }
    assert(all.take(k as int) =~= all);
    r
}

} // verus!
