use vstd::prelude::*;
use vstd::string::*;

verus! {

/// PCI class code of display controllers (the top byte of the 24-bit class).
pub const DISPLAY_CLASS: u32 = 0x03;

pub const VENDOR_AMD: u16 = 0x1002;

pub const VENDOR_NVIDIA: u16 = 0x10DE;

pub const VENDOR_INTEL: u16 = 0x8086;

/// One PCI function as the kernel lists it: its bus address (`0000:01:00.1`),
/// its class code and its vendor and device ids.
#[derive(Debug, Clone)]
pub struct PciFunction {
    pub id: String,
    pub class: u32,
    pub vendor: u16,
    pub device: u16,
}

/// A graphics device: the address of its display function and every function
/// that shares its slot (audio, USB-C controller and the like), in the order
/// of enumeration.
#[derive(Debug, Clone)]
pub struct GraphicsDevice {
    id: String,
    functions: Vec<PciFunction>,
}

/// The plain values of a PCI function.
pub type FunctionView = (Seq<char>, u32, u16, u16);

pub open spec fn function_view(f: PciFunction) -> FunctionView {
    (f.id@, f.class, f.vendor, f.device)
}

pub open spec fn function_views(fs: Seq<PciFunction>) -> Seq<FunctionView> {
    fs.map_values(|f: PciFunction| function_view(f))
}

impl GraphicsDevice {
    pub closed spec fn spec_id(&self) -> Seq<char> {
        self.id@
    }

    pub closed spec fn spec_functions(&self) -> Seq<FunctionView> {
        function_views(self.functions@)
    }

    pub fn new(id: String, functions: Vec<PciFunction>) -> (r: Self)
        ensures
            r.spec_id() == id@,
            r.spec_functions() == function_views(functions@),
    {
        GraphicsDevice { id, functions }
    }

    /// The address of the device's display function.
    pub fn id(&self) -> (r: &str)
        ensures
            r@ == self.spec_id(),
    {
        self.id.as_str()
    }

    /// The functions that share the device's slot.
    pub fn functions(&self) -> (r: &Vec<PciFunction>)
        ensures
            function_views(r@) == self.spec_functions(),
    {
        &self.functions
    }
}

/// Where the slot part of a bus address ends: at its first '.', or at its end.
pub open spec fn first_dot_from(id: Seq<char>, i: int) -> int
    decreases id.len() - i,
{
    if i < 0 || i >= id.len() {
        id.len() as int
    } else if id[i] == '.' {
        i
    } else {
        first_dot_from(id, i + 1)
    }
}

/// The slot of a bus address: the part before the function number.
pub open spec fn slot(id: Seq<char>) -> Seq<char> {
    id.take(first_dot_from(id, 0))
}

/// Whether a class code is that of a display controller.
pub open spec fn is_display(class: u32) -> bool {
    (class >> 16u32) & 0xFFu32 == DISPLAY_CLASS
}

/// The vendors whose graphics devices are told apart.
#[derive(Debug, Clone, Copy, PartialEq, Eq, Structural)]
pub enum GpuVendor {
    Amd,
    Intel,
    Nvidia,
    Other,
}

pub open spec fn gpu_vendor(vendor: u16) -> GpuVendor {
    if vendor == VENDOR_AMD {
        GpuVendor::Amd
    } else if vendor == VENDOR_NVIDIA {
        GpuVendor::Nvidia
    } else if vendor == VENDOR_INTEL {
        GpuVendor::Intel
    } else {
        GpuVendor::Other
    }
}

/// The functions of `all` that sit in slot `s`, in order.
pub open spec fn slot_members(all: Seq<FunctionView>, s: Seq<char>) -> Seq<FunctionView>
    decreases all.len(),
{
    if all.len() == 0 {
        seq![]
    } else {
        let prev = slot_members(all.drop_last(), s);
        if slot(all.last().0) == s {
            prev.push(all.last())
        } else {
            prev
        }
    }
}

/// The plain values of a graphics device: its address and its functions.
pub type DeviceView = (Seq<char>, Seq<FunctionView>);

pub open spec fn device_view(d: GraphicsDevice) -> DeviceView {
    (d.spec_id(), d.spec_functions())
}

pub open spec fn device_views(ds: Seq<GraphicsDevice>) -> Seq<DeviceView> {
    ds.map_values(|d: GraphicsDevice| device_view(d))
}

/// The graphics devices of one vendor among the first functions `listed` of
/// `all`: each display function of that vendor, with every function of `all`
/// in its slot.
pub open spec fn devices_of(all: Seq<FunctionView>, listed: Seq<FunctionView>, vendor: GpuVendor) -> Seq<DeviceView>
    decreases listed.len(),
{
    if listed.len() == 0 {
        seq![]
    } else {
        let prev = devices_of(all, listed.drop_last(), vendor);
        let f = listed.last();
        if is_display(f.1) && gpu_vendor(f.2) == vendor {
            prev.push((f.0, slot_members(all, slot(f.0))))
        } else {
            prev
        }
    }
}

impl PciFunction {
    /// A copy of the function's values.
    pub fn duplicate(&self) -> (r: PciFunction)
        ensures
            function_view(r) == function_view(*self),
    {
        PciFunction { id: self.id.clone(), class: self.class, vendor: self.vendor, device: self.device }
    }

    pub fn is_display(&self) -> (r: bool)
        ensures
            r == is_display(self.class),
    {
        (self.class >> 16u32) & 0xFFu32 == DISPLAY_CLASS
    }

    pub fn gpu_vendor(&self) -> (r: GpuVendor)
        ensures
            r == gpu_vendor(self.vendor),
    {
        if self.vendor == VENDOR_AMD {
            GpuVendor::Amd
        } else if self.vendor == VENDOR_NVIDIA {
            GpuVendor::Nvidia
        } else if self.vendor == VENDOR_INTEL {
            GpuVendor::Intel
        } else {
            GpuVendor::Other
        }
    }
}

/// Where the slot part of `id` ends.
pub fn slot_end(id: &str) -> (r: usize)
    ensures
        r == first_dot_from(id@, 0),
{
    let n = id.unicode_len();
    let mut i: usize = 0;
    while i < n
        invariant
            n == id@.len(),
            0 <= i <= n,
            first_dot_from(id@, 0) == first_dot_from(id@, i as int),
        decreases n - i,
    {
        if id.get_char(i) == '.' {
            return i;
        }
        i = i + 1;
    }
    i
}

/// Whether two bus addresses name the same slot.
pub fn same_slot(a: &str, b: &str) -> (r: bool)
    ensures
        r == (slot(a@) == slot(b@)),
{
    let ea = slot_end(a);
    let eb = slot_end(b);
    proof {
        assert(0 <= first_dot_from(a@, 0) <= a@.len()) by {
            lemma_first_dot_bounds(a@, 0);
        }
        assert(0 <= first_dot_from(b@, 0) <= b@.len()) by {
            lemma_first_dot_bounds(b@, 0);
        }
    }
    if ea != eb {
        assert(slot(a@).len() != slot(b@).len());
        return false;
    }
    let mut k: usize = 0;
    while k < ea
        invariant
            ea == eb,
            ea <= a@.len(),
            eb <= b@.len(),
            ea == first_dot_from(a@, 0),
            eb == first_dot_from(b@, 0),
            0 <= k <= ea,
            forall|j: int| 0 <= j < k ==> a@[j] == b@[j],
        decreases ea - k,
    {
        if a.get_char(k) != b.get_char(k) {
            assert(slot(a@)[k as int] != slot(b@)[k as int]);
            return false;
        }
        k = k + 1;
    }
    assert(slot(a@) =~= slot(b@));
    true
}

proof fn lemma_first_dot_bounds(id: Seq<char>, i: int)
    requires
        0 <= i,
    ensures
        0 <= first_dot_from(id, i) <= id.len(),
        i <= id.len() ==> i <= first_dot_from(id, i),
    decreases id.len() - i,
{
    if i < id.len() && id[i] != '.' {
        lemma_first_dot_bounds(id, i + 1);
    }
}

/// The functions of `all` in the slot of `parent`, in order.
pub fn functions_in_slot(all: &Vec<PciFunction>, parent: &str) -> (r: Vec<PciFunction>)
    ensures
        function_views(r@) == slot_members(function_views(all@), slot(parent@)),
{
    let mut out: Vec<PciFunction> = Vec::new();
    let mut i: usize = 0;
    while i < all.len()
        invariant
            0 <= i <= all@.len(),
            function_views(out@) == slot_members(function_views(all@).take(i as int), slot(parent@)),
        decreases all@.len() - i,
    {
        let ghost before = out@;
        if same_slot(all[i].id.as_str(), parent) {
            out.push(all[i].duplicate());
            assert(function_views(out@) =~= function_views(before).push(function_view(all@[i as int])));
        }
        assert(function_views(all@).take(i + 1).drop_last() =~= function_views(all@).take(i as int));
        i = i + 1;
    }
    assert(function_views(all@).take(all@.len() as int) =~= function_views(all@));
    out
}

/// The graphics devices on the bus, by vendor.
pub struct GfxDevices {
    pub amd: Vec<GraphicsDevice>,
    pub intel: Vec<GraphicsDevice>,
    pub nvidia: Vec<GraphicsDevice>,
    pub other: Vec<GraphicsDevice>,
}

/// Sorts the display functions among `all` by vendor: AMD (0x1002), NVIDIA
/// (0x10de), Intel (0x8086) and the rest, each with every function of `all`
/// in its slot, in the order of `all`.
pub fn classify_devices(all: &Vec<PciFunction>) -> (r: GfxDevices)
    ensures
        device_views(r.amd@) == devices_of(function_views(all@), function_views(all@), GpuVendor::Amd),
        device_views(r.intel@) == devices_of(function_views(all@), function_views(all@), GpuVendor::Intel),
        device_views(r.nvidia@) == devices_of(function_views(all@), function_views(all@), GpuVendor::Nvidia),
        device_views(r.other@) == devices_of(function_views(all@), function_views(all@), GpuVendor::Other),
{
    let ghost fv = function_views(all@);
    let mut amd: Vec<GraphicsDevice> = Vec::new();
    let mut intel: Vec<GraphicsDevice> = Vec::new();
    let mut nvidia: Vec<GraphicsDevice> = Vec::new();
    let mut other: Vec<GraphicsDevice> = Vec::new();
    let mut i: usize = 0;
    while i < all.len()
        invariant
            0 <= i <= all@.len(),
            fv == function_views(all@),
            device_views(amd@) == devices_of(fv, fv.take(i as int), GpuVendor::Amd),
            device_views(intel@) == devices_of(fv, fv.take(i as int), GpuVendor::Intel),
            device_views(nvidia@) == devices_of(fv, fv.take(i as int), GpuVendor::Nvidia),
            device_views(other@) == devices_of(fv, fv.take(i as int), GpuVendor::Other),
        decreases all@.len() - i,
    {
        let f = &all[i];
        assert(fv.take(i + 1).drop_last() =~= fv.take(i as int));
        assert(fv.take(i + 1).last() == function_view(*f));
        if f.is_display() {
            let dev = GraphicsDevice::new(f.id.clone(), functions_in_slot(all, f.id.as_str()));
            match f.gpu_vendor() {
                GpuVendor::Amd => {
                    let ghost before = amd@;
                    amd.push(dev);
                    assert(device_views(amd@) =~= device_views(before).push(device_view(dev)));
                },
                GpuVendor::Intel => {
                    let ghost before = intel@;
                    intel.push(dev);
                    assert(device_views(intel@) =~= device_views(before).push(device_view(dev)));
                },
                GpuVendor::Nvidia => {
                    let ghost before = nvidia@;
                    nvidia.push(dev);
                    assert(device_views(nvidia@) =~= device_views(before).push(device_view(dev)));
                },
                GpuVendor::Other => {
                    let ghost before = other@;
                    other.push(dev);
                    assert(device_views(other@) =~= device_views(before).push(device_view(dev)));
                },
            }
        }
        i = i + 1;
    }
    assert(fv.take(all@.len() as int) =~= fv);
    GfxDevices { amd, intel, nvidia, other }
}

/// The sysfs file that makes the kernel rescan the PCI bus.
pub const PCI_RESCAN_PATH: &'static str = "/sys/bus/pci/rescan";

/// A handle to the system's PCI root, which can be rescanned.
#[derive(Debug, Clone)]
pub struct PciBus {
    rescan_path: String,
}

impl PciBus {
    pub closed spec fn spec_rescan_path(&self) -> Seq<char> {
        self.rescan_path@
    }

    pub fn new() -> (r: PciBus)
        ensures
            r.spec_rescan_path() == PCI_RESCAN_PATH@,
    {
        PciBus { rescan_path: String::from_str(PCI_RESCAN_PATH) }
    }

    /// The file that a rescan writes "1" to.
    pub fn rescan_path(&self) -> (r: &str)
        ensures
            r@ == self.spec_rescan_path(),
    {
        self.rescan_path.as_str()
    }

    pub fn duplicate(&self) -> (r: PciBus)
        ensures
            r.spec_rescan_path() == self.spec_rescan_path(),
    {
        PciBus { rescan_path: self.rescan_path.clone() }
    }
}

impl GraphicsDevice {
    /// A copy of the device's values.
    pub fn duplicate(&self) -> (r: GraphicsDevice)
        ensures
            device_view(r) == device_view(*self),
    {
        let mut functions: Vec<PciFunction> = Vec::new();
        let mut i: usize = 0;
        while i < self.functions.len()
            invariant
                0 <= i <= self.functions@.len(),
                functions@.len() == i,
                function_views(functions@) == function_views(self.functions@).take(i as int),
            decreases self.functions@.len() - i,
        {
            let ghost before = functions@;
            let f = self.functions[i].duplicate();
            functions.push(f);
            assert forall|j: int| 0 <= j <= i implies function_views(functions@)[j] == function_views(self.functions@)[j] by {
                if j < i {
                    assert(function_views(before)[j] == function_views(self.functions@).take(i as int)[j]);
                    assert(functions@[j] == before[j]);
                }
            }
            assert(function_views(functions@) =~= function_views(self.functions@).take(i + 1));
            i = i + 1;
        }
        assert(function_views(self.functions@).take(self.functions@.len() as int) =~= function_views(self.functions@));
        GraphicsDevice { id: self.id.clone(), functions }
    }
}

/// A copy of every device of `devs`.
pub fn duplicate_devices(devs: &Vec<GraphicsDevice>) -> (r: Vec<GraphicsDevice>)
    ensures
        device_views(r@) == device_views(devs@),
{
    let mut out: Vec<GraphicsDevice> = Vec::new();
    let mut i: usize = 0;
    while i < devs.len()
        invariant
            0 <= i <= devs@.len(),
            out@.len() == i,
            device_views(out@) == device_views(devs@).take(i as int),
        decreases devs@.len() - i,
    {
        let ghost before = out@;
        let d = devs[i].duplicate();
        out.push(d);
        assert forall|j: int| 0 <= j <= i implies device_views(out@)[j] == device_views(devs@)[j] by {
            if j < i {
                assert(device_views(before)[j] == device_views(devs@).take(i as int)[j]);
                assert(out@[j] == before[j]);
            }
        }
        assert(device_views(out@) =~= device_views(devs@).take(i + 1));
        i = i + 1;
    }
    assert(device_views(devs@).take(devs@.len() as int) =~= device_views(devs@));
    out
}

} // verus!
