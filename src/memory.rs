use vstd::prelude::*;
use crate::devices::gpu::{GpuMmio, GpuState, gpu_read8, gpu_write8, in_window};
use crate::devices::raster::{le_bytes, lemma_channels_recombine};
use crate::devices::ram::Ram;
use crate::devices::rom::Rom;
use crate::devices::vram::GpuVram;

verus! {

/// Why a bus access failed.
#[derive(Debug, Clone, Copy, PartialEq, Eq)]
pub enum MemoryError {
    /// Reserved for alignment checks on loads; never raised.
    AddressErrorLoad(u32),
    /// Reserved for alignment checks on stores; never raised.
    AddressErrorStore(u32),
    /// No device claims the address, or a virtual address lies outside the mapped segments.
    Unmapped(u32),
    /// A store to read-only memory.
    RomWrite(u32),
}

pub type MemResult<T> = Result<T, MemoryError>;

/// A plain memory of `data.len()` bytes at `base` ends inside the 32-bit address space.
pub open spec fn mem_fits(base: u32, data: Seq<u8>) -> bool {
    1 <= data.len() && base + data.len() <= 0x1_0000_0000
}

/// A byte read from plain memory of `data.len()` bytes at `base`.
pub open spec fn mem_read8(base: u32, data: Seq<u8>, paddr: u32) -> MemResult<u8> {
    if base <= paddr < base + data.len() {
        Ok(data[paddr - base])
    } else {
        Err(MemoryError::Unmapped(paddr))
    }
}

/// A device that can sit on the bus.
pub enum Device {
    Ram(Ram),
    Rom(Rom),
    Vram(GpuVram),
    Gpu(GpuMmio),
}

/// A device as a value of logic: plain memories as their base and bytes.
pub enum DeviceModel {
    Ram(u32, Seq<u8>),
    Rom(u32, Seq<u8>),
    Vram(u32, Seq<u8>),
    Gpu(GpuState),
}

impl View for Device {
    type V = DeviceModel;

    open spec fn view(&self) -> DeviceModel {
        match self {
            Device::Ram(d) => DeviceModel::Ram(d@.0, d@.1),
            Device::Rom(d) => DeviceModel::Rom(d@.0, d@.1),
            Device::Vram(d) => DeviceModel::Vram(d@.0, d@.1),
            Device::Gpu(g) => DeviceModel::Gpu(g@),
        }
    }
}

impl DeviceModel {
    pub open spec fn wf(self) -> bool {
        match self {
            DeviceModel::Ram(b, d) => mem_fits(b, d),
            DeviceModel::Rom(b, d) => mem_fits(b, d),
            DeviceModel::Vram(b, d) => mem_fits(b, d),
            DeviceModel::Gpu(g) => g.wf(),
        }
    }

    /// Whether the device's range holds `paddr`.
    pub open spec fn claims(self, paddr: u32) -> bool {
        match self {
            DeviceModel::Ram(b, d) => b <= paddr < b + d.len(),
            DeviceModel::Rom(b, d) => b <= paddr < b + d.len(),
            DeviceModel::Vram(b, d) => b <= paddr < b + d.len(),
            DeviceModel::Gpu(g) => in_window(g.base, paddr),
        }
    }

    pub open spec fn read8(self, paddr: u32) -> MemResult<u8> {
        match self {
            DeviceModel::Ram(b, d) => mem_read8(b, d, paddr),
            DeviceModel::Rom(b, d) => mem_read8(b, d, paddr),
            DeviceModel::Vram(b, d) => mem_read8(b, d, paddr),
            DeviceModel::Gpu(g) => gpu_read8(g, paddr),
        }
    }

    /// A byte store: the device after it, the video memory a GPU draws into after it,
    /// and the result. Only a GPU touches `video`.
    pub open spec fn write8(self, paddr: u32, value: u8, video: Seq<u8>) -> (
        DeviceModel,
        Seq<u8>,
        MemResult<()>,
    ) {
        match self {
            DeviceModel::Ram(b, d) => if b <= paddr < b + d.len() {
                (DeviceModel::Ram(b, d.update(paddr - b, value)), video, Ok(()))
            } else {
                (self, video, Err(MemoryError::Unmapped(paddr)))
            },
            DeviceModel::Rom(_, _) => (self, video, Err(MemoryError::RomWrite(paddr))),
            DeviceModel::Vram(b, d) => if b <= paddr < b + d.len() {
                (DeviceModel::Vram(b, d.update(paddr - b, value)), video, Ok(()))
            } else {
                (self, video, Err(MemoryError::Unmapped(paddr)))
            },
            DeviceModel::Gpu(g) => {
                let (g2, v2, r) = gpu_write8(g, paddr, value, video);
                (DeviceModel::Gpu(g2), v2, r)
            },
        }
    }
}

/// The first device, from index `i` on, whose range holds `paddr`.
pub open spec fn find_from(devs: Seq<DeviceModel>, paddr: u32, i: int) -> Option<int>
    decreases devs.len() - i,
{
    if i < 0 || i >= devs.len() {
        None
    } else if devs[i].claims(paddr) {
        Some(i)
    } else {
        find_from(devs, paddr, i + 1)
    }
}

/// The first device whose range holds `paddr`: registration order decides.
pub open spec fn find(devs: Seq<DeviceModel>, paddr: u32) -> Option<int> {
    find_from(devs, paddr, 0)
}

/// The first video memory from index `i` on.
pub open spec fn video_from(devs: Seq<DeviceModel>, i: int) -> Option<int>
    decreases devs.len() - i,
{
    if i < 0 || i >= devs.len() {
        None
    } else if devs[i] is Vram {
        Some(i)
    } else {
        video_from(devs, i + 1)
    }
}

/// A device found from index `i` on claims the address and is not before `i`.
pub proof fn lemma_find_from_claims(devs: Seq<DeviceModel>, paddr: u32, i: int)
    ensures
        match find_from(devs, paddr, i) {
            Some(k) => 0 <= i <= k < devs.len() && devs[k].claims(paddr),
            None => true,
        },
    decreases devs.len() - i,
{
    if 0 <= i < devs.len() && !devs[i].claims(paddr) {
        lemma_find_from_claims(devs, paddr, i + 1);
    }
}

/// A video memory found from index `i` on is one, and is not before `i`.
pub proof fn lemma_video_from_is_video(devs: Seq<DeviceModel>, i: int)
    ensures
        match video_from(devs, i) {
            Some(k) => 0 <= i <= k < devs.len() && devs[k] is Vram,
            None => true,
        },
    decreases devs.len() - i,
{
    if 0 <= i < devs.len() && !(devs[i] is Vram) {
        lemma_video_from_is_video(devs, i + 1);
    }
}

/// The video memory that GPUs draw into: the first one registered.
pub open spec fn video_index(devs: Seq<DeviceModel>) -> Option<int> {
    video_from(devs, 0)
}

/// The bytes of the video memory that GPUs draw into; empty when there is none.
pub open spec fn video_bytes(devs: Seq<DeviceModel>) -> Seq<u8> {
    match video_index(devs) {
        Some(k) => match devs[k] {
            DeviceModel::Vram(_, d) => d,
            _ => Seq::empty(),
        },
        None => Seq::empty(),
    }
}

/// `devs` with the drawn-into video memory's bytes replaced.
pub open spec fn with_video(devs: Seq<DeviceModel>, bytes: Seq<u8>) -> Seq<DeviceModel> {
    match video_index(devs) {
        Some(k) => match devs[k] {
            DeviceModel::Vram(b, _) => devs.update(k, DeviceModel::Vram(b, bytes)),
            _ => devs,
        },
        None => devs,
    }
}

/// A byte read at a physical address.
#[verifier::opaque]
pub open spec fn bus_read8(devs: Seq<DeviceModel>, paddr: u32) -> MemResult<u8> {
    match find(devs, paddr) {
        Some(i) => devs[i].read8(paddr),
        None => Err(MemoryError::Unmapped(paddr)),
    }
}

/// A byte store at a physical address: the devices after it, and the result.
pub open spec fn bus_write8(devs: Seq<DeviceModel>, paddr: u32, value: u8) -> (
    Seq<DeviceModel>,
    MemResult<()>,
) {
    match find(devs, paddr) {
        None => (devs, Err(MemoryError::Unmapped(paddr))),
        Some(i) => if devs[i] is Gpu {
            let (d2, video, r) = devs[i].write8(paddr, value, video_bytes(devs));
            (with_video(devs, video).update(i, d2), r)
        } else {
            let (d2, _, r) = devs[i].write8(paddr, value, Seq::empty());
            (devs.update(i, d2), r)
        },
    }
}

/// The address `k` bytes after `paddr`, wrapping at 2^32.
pub open spec fn addr_after(paddr: u32, k: int) -> u32 {
    ((paddr + k) % 0x1_0000_0000) as u32
}

/// Two bytes read in turn, assembled little-endian; the first failure is returned.
pub open spec fn bus_read16(devs: Seq<DeviceModel>, paddr: u32) -> MemResult<u16> {
    match bus_read8(devs, paddr) {
        Err(e) => Err(e),
        Ok(b0) => match bus_read8(devs, addr_after(paddr, 1)) {
            Err(e) => Err(e),
            Ok(b1) => Ok((b0 + b1 * 0x100) as u16),
        },
    }
}

/// Two half-words read in turn, low first, assembled little-endian; the first failure
/// is returned.
pub open spec fn bus_read32(devs: Seq<DeviceModel>, paddr: u32) -> MemResult<u32> {
    match bus_read16(devs, paddr) {
        Err(e) => Err(e),
        Ok(lo) => match bus_read16(devs, addr_after(paddr, 2)) {
            Err(e) => Err(e),
            Ok(hi) => Ok((lo + hi * 0x1_0000) as u32),
        },
    }
}

/// Byte stores of `bytes[k..]` at `paddr + k ..`, stopping at the first failure.
pub open spec fn bus_write_from(devs: Seq<DeviceModel>, paddr: u32, bytes: Seq<u8>, k: nat) -> (
    Seq<DeviceModel>,
    MemResult<()>,
)
    decreases bytes.len() - k,
{
    if k >= bytes.len() {
        (devs, Ok(()))
    } else {
        let (d1, r) = bus_write8(devs, addr_after(paddr, k as int), bytes[k as int]);
        if r is Err {
            (d1, r)
        } else {
            bus_write_from(d1, paddr, bytes, k + 1)
        }
    }
}

/// A little-endian store of `bytes` byte by byte, stopping at the first failure.
pub open spec fn bus_write_bytes(devs: Seq<DeviceModel>, paddr: u32, bytes: Seq<u8>) -> (
    Seq<DeviceModel>,
    MemResult<()>,
) {
    bus_write_from(devs, paddr, bytes, 0)
}

pub open spec fn le16(v: u16) -> Seq<u8> {
    seq![(v % 0x100) as u8, (v / 0x100) as u8]
}

/// Fixed segment translation: KUSEG maps to itself, KSEG0 and KSEG1 drop their offset,
/// the rest is unmapped.
pub open spec fn translate(vaddr: u32) -> MemResult<u32> {
    if vaddr <= 0x7FFF_FFFF {
        Ok(vaddr)
    } else if vaddr <= 0x9FFF_FFFF {
        Ok((vaddr - 0x8000_0000) as u32)
    } else if vaddr <= 0xBFFF_FFFF {
        Ok((vaddr - 0xA000_0000) as u32)
    } else {
        Err(MemoryError::Unmapped(vaddr))
    }
}

impl Device {
    /// Whether the device's range holds `paddr`.
    pub fn claims(&self, paddr: u32) -> (r: bool)
        requires
            self@.wf(),
        ensures
            r == self@.claims(paddr),
    {
        let (lo, hi) = match self {
            Device::Ram(d) => d.range(),
            Device::Rom(d) => d.range(),
            Device::Vram(d) => d.range_bounds(),
            Device::Gpu(g) => g.range(),
        };
        lo <= paddr && paddr <= hi
    }

    /// The inclusive range of physical addresses that the device covers.
    pub fn range(&self) -> (r: (u32, u32))
        requires
            self@.wf(),
        ensures
            forall|p: u32| (r.0 <= p <= r.1) == self@.claims(p),
    {
        match self {
            Device::Ram(d) => d.range(),
            Device::Rom(d) => d.range(),
            Device::Vram(d) => d.range_bounds(),
            Device::Gpu(g) => g.range(),
        }
    }

    pub fn read8(&self, paddr: u32) -> (r: MemResult<u8>)
        requires
            self@.wf(),
        ensures
            r == self@.read8(paddr),
    {
        match self {
            Device::Ram(d) => d.read8(paddr),
            Device::Rom(d) => d.read8(paddr),
            Device::Vram(d) => d.read8(paddr),
            Device::Gpu(g) => g.read8(paddr),
        }
    }

    /// A byte store. `video` is the video memory that a GPU draws into; other devices
    /// leave it alone.
    pub fn write8(&mut self, paddr: u32, value: u8, video: &mut Vec<u8>) -> (r: MemResult<()>)
        requires
            old(self)@.wf(),
        ensures
            (final(self)@, final(video)@, r) == old(self)@.write8(paddr, value, old(video)@),
            final(self)@.wf(),
            final(video)@.len() == old(video)@.len(),
    {
        match self {
            Device::Ram(d) => d.write8(paddr, value),
            Device::Rom(d) => d.write8(paddr, value),
            Device::Vram(d) => d.write8(paddr, value),
            Device::Gpu(g) => g.write8(paddr, value, video),
        }
    }
}

/// The interconnect: devices in registration order, the first whose range holds an
/// address serves it.
pub struct MemoryBus {
    devices: Vec<Device>,
    pub little_endian: bool,
}

impl View for MemoryBus {
    type V = Seq<DeviceModel>;

    closed spec fn view(&self) -> Seq<DeviceModel> {
        self.devices@.map_values(|d: Device| d@)
    }
}

impl MemoryBus {
    /// The byte-order flag the bus was made with.
    pub closed spec fn is_little_endian(&self) -> bool {
        self.little_endian
    }

    /// Every device is well formed.
    pub open spec fn wf(&self) -> bool {
        forall|i: int| 0 <= i < self@.len() ==> (#[trigger] self@[i]).wf()
    }

    /// A bus with no devices.
    pub fn new(little_endian: bool) -> (r: Self)
        ensures
            r@ == Seq::<DeviceModel>::empty(),
            r.wf(),
            r.is_little_endian() == little_endian,
    {
        let r = MemoryBus { devices: Vec::new(), little_endian };
        assert(r@ =~= Seq::<DeviceModel>::empty());
        r
    }

    /// Registers a device after those already there.
    pub fn add_device(&mut self, dev: Device)
        requires
            old(self).wf(),
            dev@.wf(),
        ensures
            final(self)@ == old(self)@.push(dev@),
            final(self).wf(),
            final(self).is_little_endian() == old(self).is_little_endian(),
    {
        let ghost d = dev@;
        self.devices.push(dev);
        assert(self@ =~= old(self)@.push(d));
    }

    fn find_device(&self, paddr: u32) -> (r: Option<usize>)
        requires
            self.wf(),
        ensures
            match r {
                Some(i) => find(self@, paddr) == Some(i as int) && i < self@.len(),
                None => find(self@, paddr) is None,
            },
    {
        let mut i: usize = 0;
        while i < self.devices.len()
            invariant
                i <= self@.len(),
                self@.len() == self.devices@.len(),
                self.wf(),
                find(self@, paddr) == find_from(self@, paddr, i as int),
            decreases self@.len() - i,
        {
            assert(self@[i as int] == self.devices@[i as int]@);
            if self.devices[i].claims(paddr) {
                return Some(i);
            }
            i = i + 1;
        }
        None
    }

    fn video_device(&self) -> (r: Option<usize>)
        ensures
            match r {
                Some(i) => video_index(self@) == Some(i as int) && i < self@.len(),
                None => video_index(self@) is None,
            },
    {
        let mut i: usize = 0;
        while i < self.devices.len()
            invariant
                i <= self@.len(),
                self@.len() == self.devices@.len(),
                video_index(self@) == video_from(self@, i as int),
            decreases self@.len() - i,
        {
            assert(self@[i as int] == self.devices@[i as int]@);
            if let Device::Vram(_) = &self.devices[i] {
                return Some(i);
            }
            i = i + 1;
        }
        None
    }

    pub fn read8(&self, paddr: u32) -> (r: MemResult<u8>)
        requires
            self.wf(),
        ensures
            r == bus_read8(self@, paddr),
    {
        reveal(bus_read8);
        match self.find_device(paddr) {
            Some(i) => {
                assert(self@[i as int] == self.devices@[i as int]@);
                self.devices[i].read8(paddr)
            },
            None => Err(MemoryError::Unmapped(paddr)),
        }
    }

    pub fn read16(&self, paddr: u32) -> (r: MemResult<u16>)
        requires
            self.wf(),
        ensures
            r == bus_read16(self@, paddr),
    {
        let b0 = match self.read8(paddr) {
            Ok(b) => b,
            Err(e) => return Err(e),
        };
        let b1 = match self.read8(paddr.wrapping_add(1)) {
            Ok(b) => b,
            Err(e) => return Err(e),
        };
        Ok(b0 as u16 + b1 as u16 * 0x100)
    }

    pub fn read32(&self, paddr: u32) -> (r: MemResult<u32>)
        requires
            self.wf(),
        ensures
            r == bus_read32(self@, paddr),
    {
        let lo = match self.read16(paddr) {
            Ok(h) => h,
            Err(e) => return Err(e),
        };
        let hi = match self.read16(paddr.wrapping_add(2)) {
            Ok(h) => h,
            Err(e) => return Err(e),
        };
        Ok(lo as u32 + hi as u32 * 0x1_0000)
    }

    pub fn write8(&mut self, paddr: u32, value: u8) -> (r: MemResult<()>)
        requires
            old(self).wf(),
        ensures
            (final(self)@, r) == bus_write8(old(self)@, paddr, value),
            final(self).wf(),
            final(self).is_little_endian() == old(self).is_little_endian(),
    {
        let i = match self.find_device(paddr) {
            Some(i) => i,
            None => return Err(MemoryError::Unmapped(paddr)),
        };
        let ghost devs = self@;
        assert(devs[i as int] == self.devices@[i as int]@);
        proof {
            lemma_find_from_claims(devs, paddr, 0);
        }
        let is_gpu = match &self.devices[i] {
            Device::Gpu(_) => true,
            _ => false,
        };
        if !is_gpu {
            let mut no_video: Vec<u8> = Vec::new();
            let r = self.devices[i].write8(paddr, value, &mut no_video);
            assert(self@ =~= bus_write8(devs, paddr, value).0);
            r
        } else {
            let vi = self.video_device();
            proof {
                lemma_video_from_is_video(devs, 0);
            }
            let mut video: Vec<u8> = Vec::new();
            if let Some(k) = vi {
                assert(devs[k as int] == self.devices@[k as int]@);
                if let Device::Vram(v) = &mut self.devices[k] {
                    v.swap_data(&mut video);
                }
            }
            assert(video@ == video_bytes(devs));
            let r = self.devices[i].write8(paddr, value, &mut video);
            if let Some(k) = vi {
                if let Device::Vram(v) = &mut self.devices[k] {
                    v.swap_data(&mut video);
                }
            }
            assert(self@ =~= bus_write8(devs, paddr, value).0);
            r
        }
    }

    /// Byte stores of `bytes` at successive addresses, stopping at the first failure.
    fn write_seq(&mut self, paddr: u32, bytes: &Vec<u8>) -> (r: MemResult<()>)
        requires
            old(self).wf(),
            bytes@.len() <= 4,
        ensures
            (final(self)@, r) == bus_write_bytes(old(self)@, paddr, bytes@),
            final(self).wf(),
            final(self).is_little_endian() == old(self).is_little_endian(),
    {
        let ghost target = bus_write_bytes(self@, paddr, bytes@);
        let mut k: usize = 0;
        while k < bytes.len()
            invariant
                k <= bytes@.len(),
                bytes@.len() <= 4,
                self.wf(),
                self.is_little_endian() == old(self).is_little_endian(),
                bus_write_from(self@, paddr, bytes@, k as nat) == target,
                target == bus_write_bytes(old(self)@, paddr, bytes@),
            decreases bytes@.len() - k,
        {
            let ghost cur = self@;
            let r = self.write8(paddr.wrapping_add(k as u32), bytes[k]);
            assert(paddr.wrapping_add(k as u32) == addr_after(paddr, k as int));
            if r.is_err() {
                assert(bus_write_from(cur, paddr, bytes@, k as nat) == (self@, r));
                return r;
            }
            assert(bus_write_from(cur, paddr, bytes@, k as nat) == bus_write_from(self@, paddr, bytes@, (k + 1) as nat));
            k = k + 1;
        }
        Ok(())
    }

    pub fn write16(&mut self, paddr: u32, value: u16) -> (r: MemResult<()>)
        requires
            old(self).wf(),
        ensures
            (final(self)@, r) == bus_write_bytes(old(self)@, paddr, le16(value)),
            final(self).wf(),
            final(self).is_little_endian() == old(self).is_little_endian(),
    {
        let bytes = vec![(value % 0x100) as u8, (value / 0x100) as u8];
        assert(bytes@ =~= le16(value));
        self.write_seq(paddr, &bytes)
    }

    pub fn write32(&mut self, paddr: u32, value: u32) -> (r: MemResult<()>)
        requires
            old(self).wf(),
        ensures
            (final(self)@, r) == bus_write_bytes(old(self)@, paddr, le_bytes(value)),
            final(self).wf(),
            final(self).is_little_endian() == old(self).is_little_endian(),
    {
        let bytes = vec![
            (value % 0x100) as u8,
            ((value / 0x100) % 0x100) as u8,
            ((value / 0x1_0000) % 0x100) as u8,
            ((value / 0x100_0000) % 0x100) as u8,
        ];
        assert(bytes@ =~= le_bytes(value));
        self.write_seq(paddr, &bytes)
    }

    /// Fixed segment translation of a virtual address.
    pub fn translate_vaddr(&self, vaddr: u32) -> (r: MemResult<u32>)
        ensures
            r == translate(vaddr),
    {
        if vaddr <= 0x7FFF_FFFF {
            Ok(vaddr)
        } else if vaddr <= 0x9FFF_FFFF {
            Ok(vaddr - 0x8000_0000)
        } else if vaddr <= 0xBFFF_FFFF {
            Ok(vaddr - 0xA000_0000)
        } else {
            Err(MemoryError::Unmapped(vaddr))
        }
    }

    pub fn read8_virt(&self, vaddr: u32) -> (r: MemResult<u8>)
        requires
            self.wf(),
        ensures
            r == match translate(vaddr) {
                Ok(p) => bus_read8(self@, p),
                Err(e) => Err(e),
            },
    {
        match self.translate_vaddr(vaddr) {
            Ok(p) => self.read8(p),
            Err(e) => Err(e),
        }
    }

    pub fn read16_virt(&self, vaddr: u32) -> (r: MemResult<u16>)
        requires
            self.wf(),
        ensures
            r == match translate(vaddr) {
                Ok(p) => bus_read16(self@, p),
                Err(e) => Err(e),
            },
    {
        match self.translate_vaddr(vaddr) {
            Ok(p) => self.read16(p),
            Err(e) => Err(e),
        }
    }

    pub fn read32_virt(&self, vaddr: u32) -> (r: MemResult<u32>)
        requires
            self.wf(),
        ensures
            r == match translate(vaddr) {
                Ok(p) => bus_read32(self@, p),
                Err(e) => Err(e),
            },
    {
        match self.translate_vaddr(vaddr) {
            Ok(p) => self.read32(p),
            Err(e) => Err(e),
        }
    }

    pub fn write8_virt(&mut self, vaddr: u32, val: u8) -> (r: MemResult<()>)
        requires
            old(self).wf(),
        ensures
            (final(self)@, r) == match translate(vaddr) {
                Ok(p) => bus_write8(old(self)@, p, val),
                Err(e) => (old(self)@, Err(e)),
            },
            final(self).wf(),
            final(self).is_little_endian() == old(self).is_little_endian(),
    {
        match self.translate_vaddr(vaddr) {
            Ok(p) => self.write8(p, val),
            Err(e) => Err(e),
        }
    }

    pub fn write16_virt(&mut self, vaddr: u32, val: u16) -> (r: MemResult<()>)
        requires
            old(self).wf(),
        ensures
            (final(self)@, r) == match translate(vaddr) {
                Ok(p) => bus_write_bytes(old(self)@, p, le16(val)),
                Err(e) => (old(self)@, Err(e)),
            },
            final(self).wf(),
            final(self).is_little_endian() == old(self).is_little_endian(),
    {
        match self.translate_vaddr(vaddr) {
            Ok(p) => self.write16(p, val),
            Err(e) => Err(e),
        }
    }

    pub fn write32_virt(&mut self, vaddr: u32, val: u32) -> (r: MemResult<()>)
        requires
            old(self).wf(),
        ensures
            (final(self)@, r) == match translate(vaddr) {
                Ok(p) => bus_write_bytes(old(self)@, p, le_bytes(val)),
                Err(e) => (old(self)@, Err(e)),
            },
            final(self).wf(),
            final(self).is_little_endian() == old(self).is_little_endian(),
    {
        match self.translate_vaddr(vaddr) {
            Ok(p) => self.write32(p, val),
            Err(e) => Err(e),
        }
    }
}

/// KSEG0 and KSEG1 addresses translate by dropping their segment's offset.
pub proof fn lemma_translate_kseg(vaddr: u32)
    ensures
        0x8000_0000 <= vaddr <= 0x9FFF_FFFF ==> translate(vaddr) == Ok::<u32, MemoryError>(
            (vaddr - 0x8000_0000) as u32,
        ),
        0xA000_0000 <= vaddr <= 0xBFFF_FFFF ==> translate(vaddr) == Ok::<u32, MemoryError>(
            (vaddr - 0xA000_0000) as u32,
        ),
{
}

/// Two devices cover the same addresses.
pub open spec fn same_claims(a: DeviceModel, b: DeviceModel) -> bool {
    forall|p: u32| #[trigger] a.claims(p) == b.claims(p)
}

/// Replacing a device by one that covers the same addresses changes no lookup.
pub proof fn lemma_find_from_replaced(
    devs: Seq<DeviceModel>,
    i: int,
    d: DeviceModel,
    paddr: u32,
    j: int,
)
    requires
        0 <= i < devs.len(),
        same_claims(devs[i], d),
    ensures
        find_from(devs.update(i, d), paddr, j) == find_from(devs, paddr, j),
    decreases devs.len() - j,
{
    if 0 <= j < devs.len() {
        assert(devs.update(i, d)[j].claims(paddr) == devs[j].claims(paddr));
        lemma_find_from_replaced(devs, i, d, paddr, j + 1);
    }
}

/// A byte store served by RAM replaces one byte of it and succeeds; every lookup stays.
proof fn lemma_ram_store(devs: Seq<DeviceModel>, i: int, paddr: u32, value: u8)
    requires
        find(devs, paddr) == Some(i),
        devs[i] is Ram,
    ensures
        ({
            let (b, d) = match devs[i] {
                DeviceModel::Ram(b, d) => (b, d),
                _ => (0u32, Seq::empty()),
            };
            let after = devs.update(i, DeviceModel::Ram(b, d.update(paddr - b, value)));
            &&& bus_write8(devs, paddr, value) == (after, Ok::<(), MemoryError>(()))
            &&& 0 <= paddr - b < d.len()
        }),
        bus_write8(devs, paddr, value).0[i] is Ram,
        bus_write8(devs, paddr, value).0.len() == devs.len(),
        forall|p: u32| #[trigger] find(bus_write8(devs, paddr, value).0, p) == find(devs, p),
        ({
            let (b, d) = match devs[i] {
                DeviceModel::Ram(b, d) => (b, d),
                _ => (0u32, Seq::empty()),
            };
            bus_write8(devs, paddr, value).0[i] == DeviceModel::Ram(b, d.update(paddr - b, value))
        }),
{
    lemma_find_from_claims(devs, paddr, 0);
    let (b, d) = match devs[i] {
        DeviceModel::Ram(b, d) => (b, d),
        _ => (0u32, Seq::empty()),
    };
    let nd = DeviceModel::Ram(b, d.update(paddr - b, value));
    assert(same_claims(devs[i], nd));
    assert forall|p: u32| #[trigger] find(devs.update(i, nd), p) == find(devs, p) by {
        lemma_find_from_replaced(devs, i, nd, p, 0);
    }
}

/// What a byte read returns from RAM that serves the address.
proof fn lemma_ram_load(devs: Seq<DeviceModel>, i: int, paddr: u32)
    requires
        find(devs, paddr) == Some(i),
        devs[i] is Ram,
    ensures
        match devs[i] {
            DeviceModel::Ram(b, d) => 0 <= paddr - b < d.len() && bus_read8(devs, paddr) == Ok::<
                u8,
                MemoryError,
            >(d[paddr - b]),
            _ => true,
        },
{
    reveal(bus_read8);
    lemma_find_from_claims(devs, paddr, 0);
}

/// A word stored to RAM that serves all four of its bytes reads back unchanged.
pub proof fn lemma_ram_word_round_trip(devs: Seq<DeviceModel>, i: int, paddr: u32, w: u32)
    requires
        paddr <= 0xFFFF_FFFC,
        0 <= i < devs.len(),
        devs[i] is Ram,
        find(devs, paddr) == Some(i),
        find(devs, (paddr + 1) as u32) == Some(i),
        find(devs, (paddr + 2) as u32) == Some(i),
        find(devs, (paddr + 3) as u32) == Some(i),
    ensures
        bus_write_bytes(devs, paddr, le_bytes(w)).1 == Ok::<(), MemoryError>(()),
        bus_read32(bus_write_bytes(devs, paddr, le_bytes(w)).0, paddr) == Ok::<u32, MemoryError>(w),
{
    let bs = le_bytes(w);
    let q0 = paddr;
    let q1 = (paddr + 1) as u32;
    let q2 = (paddr + 2) as u32;
    let q3 = (paddr + 3) as u32;
    assert(addr_after(paddr, 0) == q0 && addr_after(paddr, 1) == q1 && addr_after(paddr, 2) == q2
        && addr_after(paddr, 3) == q3);
    lemma_ram_store(devs, i, q0, bs[0]);
    let d1 = bus_write8(devs, q0, bs[0]).0;
    lemma_ram_store(d1, i, q1, bs[1]);
    let d2 = bus_write8(d1, q1, bs[1]).0;
    lemma_ram_store(d2, i, q2, bs[2]);
    let d3 = bus_write8(d2, q2, bs[2]).0;
    lemma_ram_store(d3, i, q3, bs[3]);
    let d4 = bus_write8(d3, q3, bs[3]).0;
    assert(bus_write_from(d4, paddr, bs, 4) == (d4, Ok::<(), MemoryError>(())));
    assert(bus_write_from(d3, paddr, bs, 3) == (d4, Ok::<(), MemoryError>(())));
    assert(bus_write_from(d2, paddr, bs, 2) == (d4, Ok::<(), MemoryError>(())));
    assert(bus_write_from(d1, paddr, bs, 1) == (d4, Ok::<(), MemoryError>(())));
    assert(bus_write_from(devs, paddr, bs, 0) == (d4, Ok::<(), MemoryError>(())));
    lemma_ram_load(d4, i, q0);
    lemma_ram_load(d4, i, q1);
    lemma_ram_load(d4, i, q2);
    lemma_ram_load(d4, i, q3);
    lemma_channels_recombine(w);
    assert(addr_after(q2, 1) == q3);
}

/// A byte store to ROM fails with `RomWrite` and leaves every device as it was, so a
/// later read returns the byte the ROM held.
pub proof fn lemma_rom_store_rejected(devs: Seq<DeviceModel>, paddr: u32, value: u8)
    requires
        match find(devs, paddr) {
            Some(i) => devs[i] is Rom,
            None => false,
        },
    ensures
        bus_write8(devs, paddr, value) == (devs, Err::<(), MemoryError>(MemoryError::RomWrite(paddr))),
        bus_read8(bus_write8(devs, paddr, value).0, paddr) == bus_read8(devs, paddr),
        match devs[find(devs, paddr)->Some_0] {
            DeviceModel::Rom(b, d) => bus_read8(devs, paddr) == Ok::<u8, MemoryError>(d[paddr - b]),
            _ => true,
        },
{
    reveal(bus_read8);
    lemma_find_from_claims(devs, paddr, 0);
    let i = find(devs, paddr)->Some_0;
    assert(devs.update(i, devs[i]) =~= devs);
}

} // verus!
