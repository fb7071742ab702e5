use vstd::prelude::*;
use vstd::string::*;

use crate::gfx_vendors::GfxVendors;
use crate::pci::{device_view, device_views, function_views, FunctionView, GraphicsDevice};

verus! {

pub const XORG_HEAD: &'static str = "# asusd: graphics output configuration\nSection \"OutputClass\"\n    Identifier \"nvidia\"\n    MatchDriver \"nvidia-drm\"\n    Driver \"nvidia\"\n    Option \"AllowEmptyInitialConfiguration\"\n    Option \"AllowExternalGpus\"";

pub const XORG_PRIMARY_GPU: &'static str = "\n    Option \"PrimaryGPU\" \"true\"";

pub const XORG_TAIL: &'static str = "\nEndSection";

pub const MODPROBE_BASE: &'static str = "# asusd: graphics driver options\nblacklist i2c_nvidia_gpu\nalias i2c_nvidia_gpu off\noptions nvidia NVreg_DynamicPowerManagement=0x02\n";

pub const MODPROBE_MODESET_ON: &'static str = "options nvidia-drm modeset=1\n";

pub const MODPROBE_MODESET_OFF: &'static str = "options nvidia-drm modeset=0\n";

pub const MODPROBE_INTEGRATED: &'static str = "# asusd: graphics driver options\nblacklist i2c_nvidia_gpu\nblacklist nouveau\nblacklist nvidia\nblacklist nvidia-drm\nblacklist nvidia-modeset\nalias i2c_nvidia_gpu off\nalias nouveau off\nalias nvidia off\nalias nvidia-drm off\nalias nvidia-modeset off\n";

pub const MODPROBE_VFIO_IDS: &'static str = "options vfio-pci ids=";

/// The display-server output configuration of a mode: the output-class
/// block, with the primary-GPU option for `Nvidia` only.
pub open spec fn xorg_conf(mode: GfxVendors) -> Seq<u8> {
    XORG_HEAD.spec_bytes() + (if mode == GfxVendors::Nvidia {
        XORG_PRIMARY_GPU.spec_bytes()
    } else {
        seq![]
    }) + XORG_TAIL.spec_bytes()
}

/// A lowercase hexadecimal digit.
pub open spec fn hex_digit(d: nat) -> u8 {
    if d < 10 {
        (48 + d) as u8
    } else {
        (87 + d) as u8
    }
}

/// `v` in lowercase hexadecimal, without leading zeros.
pub open spec fn hex_lower(v: nat) -> Seq<u8>
    decreases v,
{
    if v < 16 {
        seq![hex_digit(v)]
    } else {
        hex_lower(v / 16).push(hex_digit(v % 16))
    }
}

/// `vendor:device` of one PCI function, in hexadecimal.
pub open spec fn id_entry(p: (u16, u16)) -> Seq<u8> {
    hex_lower(p.0 as nat) + seq![58u8] + hex_lower(p.1 as nat)
}

/// The entries of `ps`, comma-separated.
pub open spec fn join_ids(ps: Seq<(u16, u16)>) -> Seq<u8>
    decreases ps.len(),
{
    if ps.len() == 0 {
        seq![]
    } else if ps.len() == 1 {
        id_entry(ps[0])
    } else {
        join_ids(ps.drop_last()) + seq![44u8] + id_entry(ps.last())
    }
}

/// The vendor and device ids of the given functions.
pub open spec fn function_ids(fs: Seq<FunctionView>) -> Seq<(u16, u16)> {
    fs.map_values(|f: FunctionView| (f.2, f.3))
}

/// The vendor and device ids of every function of every device, in order.
pub open spec fn device_ids(devs: Seq<GraphicsDevice>) -> Seq<(u16, u16)>
    decreases devs.len(),
{
    if devs.len() == 0 {
        seq![]
    } else {
        device_ids(devs.drop_last()) + function_ids(devs.last().spec_functions())
    }
}

/// The module policy of a mode, for passthrough of `devs`.
pub open spec fn modprobe_conf(mode: GfxVendors, devs: Seq<GraphicsDevice>) -> Seq<u8> {
    match mode {
        GfxVendors::Nvidia | GfxVendors::Hybrid => MODPROBE_BASE.spec_bytes()
            + MODPROBE_MODESET_ON.spec_bytes(),
        GfxVendors::Compute => MODPROBE_BASE.spec_bytes() + MODPROBE_MODESET_OFF.spec_bytes(),
        GfxVendors::Integrated => MODPROBE_INTEGRATED.spec_bytes(),
        GfxVendors::Vfio => MODPROBE_INTEGRATED.spec_bytes() + MODPROBE_VFIO_IDS.spec_bytes()
            + join_ids(device_ids(devs)),
    }
}

/// Appends the bytes of `s` to `out`.
pub fn append_str(out: &mut Vec<u8>, s: &str)
    ensures
        final(out)@ == old(out)@ + s.spec_bytes(),
{
    let b = s.as_bytes();
    let mut i: usize = 0;
    while i < b.len()
        invariant
            b@ == s.spec_bytes(),
            0 <= i <= b@.len(),
            out@ == old(out)@ + b@.take(i as int),
        decreases b@.len() - i,
    {
        out.push(b[i]);
        i = i + 1;
        assert(b@.take(i as int) =~= b@.take(i - 1).push(b@[i - 1]));
    }
    assert(b@.take(b@.len() as int) =~= b@);
}

fn hex_digit_byte(d: u16) -> (r: u8)
    requires
        d < 16,
    ensures
        r == hex_digit(d as nat),
{
    if d < 10 {
        (48 + d) as u8
    } else {
        (87 + d) as u8
    }
}

/// Appends `v` in lowercase hexadecimal, without leading zeros.
pub fn append_hex(out: &mut Vec<u8>, v: u16)
    ensures
        final(out)@ == old(out)@ + hex_lower(v as nat),
    decreases v,
{
    if v >= 16 {
        append_hex(out, v / 16);
    }
    out.push(hex_digit_byte(v % 16));
    assert(out@ =~= old(out)@ + hex_lower(v as nat));
}

/// The vendor and device ids of every function of every device, in order.
pub fn collect_device_ids(devs: &Vec<GraphicsDevice>) -> (r: Vec<(u16, u16)>)
    ensures
        r@ == device_ids(devs@),
{
    let mut ids: Vec<(u16, u16)> = Vec::new();
    let mut i: usize = 0;
    while i < devs.len()
        invariant
            0 <= i <= devs@.len(),
            ids@ == device_ids(devs@.take(i as int)),
        decreases devs@.len() - i,
    {
        let fs = devs[i].functions();
        let ghost before = ids@;
        let mut j: usize = 0;
        while j < fs.len()
            invariant
                0 <= j <= fs@.len(),
                function_views(fs@) == devs@[i as int].spec_functions(),
                ids@ == before + function_ids(function_views(fs@).take(j as int)),
            decreases fs@.len() - j,
        {
            ids.push((fs[j].vendor, fs[j].device));
            j = j + 1;
            assert(function_ids(function_views(fs@).take(j as int)) =~= function_ids(
                function_views(fs@).take(j - 1),
            ).push((fs@[j - 1].vendor, fs@[j - 1].device)));
        }
        assert(function_views(fs@).take(fs@.len() as int) =~= function_views(fs@));
        assert(devs@.take(i + 1).drop_last() =~= devs@.take(i as int));
        i = i + 1;
    }
    assert(devs@.take(devs@.len() as int) =~= devs@);
    ids
}

/// Appends the comma-separated `vendor:device` entries of `ids`.
pub fn append_ids(out: &mut Vec<u8>, ids: &Vec<(u16, u16)>)
    ensures
        final(out)@ == old(out)@ + join_ids(ids@),
{
    let mut i: usize = 0;
    while i < ids.len()
        invariant
            0 <= i <= ids@.len(),
            out@ == old(out)@ + join_ids(ids@.take(i as int)),
        decreases ids@.len() - i,
    {
        let ghost mid = out@;
        if i > 0 {
            out.push(44u8);
        }
        append_hex(out, ids[i].0);
        out.push(58u8);
        append_hex(out, ids[i].1);
        assert(ids@.take(i + 1).drop_last() =~= ids@.take(i as int));
        assert(ids@.take(i + 1).last() == ids@[i as int]);
        i = i + 1;
        assert(out@ =~= old(out)@ + join_ids(ids@.take(i as int)));
    }
    assert(ids@.take(ids@.len() as int) =~= ids@);
}

/// The display-server output configuration for `mode`.
pub fn xorg_conf_bytes(mode: GfxVendors) -> (r: Vec<u8>)
    ensures
        r@ == xorg_conf(mode),
{
    let mut out: Vec<u8> = Vec::new();
    append_str(&mut out, XORG_HEAD);
    if mode == GfxVendors::Nvidia {
        append_str(&mut out, XORG_PRIMARY_GPU);
    }
    append_str(&mut out, XORG_TAIL);
    assert(out@ =~= xorg_conf(mode));
    out
}

/// The module policy file for `mode`; for `Vfio` it lists the ids of every
/// function of `devices` for the VFIO driver to claim.
pub fn modprobe_conf_bytes(mode: GfxVendors, devices: &Vec<GraphicsDevice>) -> (r: Vec<u8>)
    ensures
        r@ == modprobe_conf(mode, devices@),
{
    let mut out: Vec<u8> = Vec::new();
    match mode {
        GfxVendors::Nvidia | GfxVendors::Hybrid => {
            append_str(&mut out, MODPROBE_BASE);
            append_str(&mut out, MODPROBE_MODESET_ON);
        },
        GfxVendors::Compute => {
            append_str(&mut out, MODPROBE_BASE);
            append_str(&mut out, MODPROBE_MODESET_OFF);
        },
        GfxVendors::Integrated => {
            append_str(&mut out, MODPROBE_INTEGRATED);
        },
        GfxVendors::Vfio => {
            append_str(&mut out, MODPROBE_INTEGRATED);
            append_str(&mut out, MODPROBE_VFIO_IDS);
            let ids = collect_device_ids(devices);
            append_ids(&mut out, &ids);
        },
    }
    assert(out@ =~= modprobe_conf(mode, devices@));
    out
}

proof fn lemma_device_ids_by_view(a: Seq<GraphicsDevice>, b: Seq<GraphicsDevice>)
    requires
        device_views(a) == device_views(b),
    ensures
        device_ids(a) == device_ids(b),
    decreases a.len(),
{
    assert(device_views(a).len() == a.len());
    assert(device_views(b).len() == b.len());
    if a.len() > 0 {
        assert(device_views(a.drop_last()) =~= device_views(a).drop_last());
        assert(device_views(b.drop_last()) =~= device_views(b).drop_last());
        lemma_device_ids_by_view(a.drop_last(), b.drop_last());
        assert(device_views(a)[a.len() - 1] == device_views(b)[b.len() - 1]);
        assert(device_view(a.last()) == device_view(b.last()));
        assert(a.last().spec_functions() == b.last().spec_functions());
    } else {
        assert(b.len() == 0);
    }
}

/// The module policy file depends on the mode and on the devices' values
/// alone: running the setup twice for the same mode and device snapshot
/// writes byte-identical files both times. (The output configuration,
/// `xorg_conf`, takes the mode alone.)
pub proof fn lemma_setup_files_idempotent(mode: GfxVendors, first: Seq<GraphicsDevice>, second: Seq<GraphicsDevice>)
    requires
        device_views(first) == device_views(second),
    ensures
        modprobe_conf(mode, first) == modprobe_conf(mode, second),
{
    lemma_device_ids_by_view(first, second);
}

} // verus!
