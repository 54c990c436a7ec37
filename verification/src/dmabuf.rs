//! The data of a shared GPU texture (DMA-BUF) the browser painted into, and the
//! checks and choices that come before importing it into the renderer.

use vstd::prelude::*;

verus! {

/// How the browser lays out the components of a pixel.
#[derive(Clone, Copy, Debug, PartialEq, Eq, Structural)]
pub enum ColorType {
    Rgba8888,
    Bgra8888,
    /// Any other value, by its raw number.
    Other(u32),
}

/// One plane of the shared texture.
#[derive(Clone, Copy, Debug, PartialEq, Eq, Structural)]
pub struct PixmapPlane {
    pub fd: i32,
    pub stride: u32,
    pub offset: u64,
}

/// What the browser reports with an accelerated paint.
pub struct PaintInfo {
    /// The plane slots; the first `plane_count` of them are in use.
    pub planes: Vec<PixmapPlane>,
    pub plane_count: i32,
    pub modifier: u64,
    pub format: ColorType,
    pub coded_width: i32,
    pub coded_height: i32,
}

/// The parts of a paint that the import needs.
pub struct DmaBufData {
    fds: Vec<i32>,
    format: ColorType,
    modifier: u64,
    width: u32,
    height: u32,
    strides: Vec<u32>,
    offsets: Vec<u32>,
}

/// What a [`DmaBufData`] holds, as values.
pub struct DmaBufModel {
    pub fds: Seq<i32>,
    pub format: ColorType,
    pub modifier: u64,
    pub width: u32,
    pub height: u32,
    pub strides: Seq<u32>,
    pub offsets: Seq<u32>,
}

impl View for DmaBufData {
    type V = DmaBufModel;

    closed spec fn view(&self) -> DmaBufModel {
        DmaBufModel {
            fds: self.fds@,
            format: self.format,
            modifier: self.modifier,
            width: self.width,
            height: self.height,
            strides: self.strides@,
            offsets: self.offsets@,
        }
    }
}

/// The renderer's texture formats that a paint can be imported as.
#[derive(Clone, Copy, Debug, PartialEq, Eq, Structural)]
pub enum TextureFormat {
    Bgra8Unorm,
    Rgba8Unorm,
}

/// The Vulkan image formats that a paint can be imported as.
#[derive(Clone, Copy, Debug, PartialEq, Eq, Structural)]
pub enum VulkanFormat {
    B8G8R8A8Unorm,
    R8G8B8A8Unorm,
}

/// Why a paint cannot be imported.
#[derive(Clone, Copy, Debug, PartialEq, Eq, Structural)]
pub enum DmaBufError {
    /// No planes, or a side of size 0.
    InvalidParameters,
    /// A negative file descriptor.
    InvalidFileDescriptor,
    /// A file descriptor that is not open in this process.
    FileDescriptorNotValid,
    /// A pixel layout the renderer has no format for.
    UnsupportedColorType(ColorType),
}

/// The formats an importable paint gets.
#[derive(Clone, Copy, Debug, PartialEq, Eq, Structural)]
pub struct ImportFormats {
    pub texture: TextureFormat,
    pub vulkan: VulkanFormat,
}

/// The renderer texture format for a pixel layout.
pub open spec fn texture_format_for(format: ColorType) -> Result<TextureFormat, DmaBufError> {
    match format {
        ColorType::Bgra8888 => Ok(TextureFormat::Bgra8Unorm),
        ColorType::Rgba8888 => Ok(TextureFormat::Rgba8Unorm),
        ColorType::Other(_) => Err(DmaBufError::UnsupportedColorType(format)),
    }
}

/// The Vulkan image format for a pixel layout.
pub open spec fn vulkan_format_for(format: ColorType) -> Result<VulkanFormat, DmaBufError> {
    match format {
        ColorType::Bgra8888 => Ok(VulkanFormat::B8G8R8A8Unorm),
        ColorType::Rgba8888 => Ok(VulkanFormat::R8G8B8A8Unorm),
        ColorType::Other(_) => Err(DmaBufError::UnsupportedColorType(format)),
    }
}

/// Picks the renderer texture format for a pixel layout.
pub fn cef_to_wgpu(format: ColorType) -> (r: Result<TextureFormat, DmaBufError>)
    ensures
        r == texture_format_for(format),
{
    match format {
        ColorType::Bgra8888 => Ok(TextureFormat::Bgra8Unorm),
        ColorType::Rgba8888 => Ok(TextureFormat::Rgba8Unorm),
        ColorType::Other(_) => Err(DmaBufError::UnsupportedColorType(format)),
    }
}

/// Picks the Vulkan image format for a pixel layout.
pub fn cef_to_vulkan(format: ColorType) -> (r: Result<VulkanFormat, DmaBufError>)
    ensures
        r == vulkan_format_for(format),
{
    match format {
        ColorType::Bgra8888 => Ok(VulkanFormat::B8G8R8A8Unorm),
        ColorType::Rgba8888 => Ok(VulkanFormat::R8G8B8A8Unorm),
        ColorType::Other(_) => Err(DmaBufError::UnsupportedColorType(format)),
    }
}

/// The outcome of checking the file descriptors from index `i` on, in order:
/// the first that is negative or not open decides the error.
pub open spec fn fd_check_from(fds: Seq<i32>, open: Seq<bool>, i: int) -> Result<(), DmaBufError>
    decreases fds.len() - i,
{
    if i < 0 || i >= fds.len() {
        Ok(())
    } else if fds[i] < 0 {
        Err(DmaBufError::InvalidFileDescriptor)
    } else if !open[i] {
        Err(DmaBufError::FileDescriptorNotValid)
    } else {
        fd_check_from(fds, open, i + 1)
    }
}

/// The outcome of the checks before an import, given for each file descriptor
/// whether it is open: the parameters first, then the descriptors in order,
/// then the pixel layout.
pub open spec fn import_check(m: DmaBufModel, open: Seq<bool>) -> Result<ImportFormats, DmaBufError> {
    if m.fds.len() == 0 || m.width == 0 || m.height == 0 {
        Err(DmaBufError::InvalidParameters)
    } else {
        match fd_check_from(m.fds, open, 0) {
            Err(e) => Err(e),
            Ok(_) => match (texture_format_for(m.format), vulkan_format_for(m.format)) {
                (Ok(t), Ok(v)) => Ok(ImportFormats { texture: t, vulkan: v }),
                (Err(e), _) => Err(e),
                (_, Err(e)) => Err(e),
            },
        }
    }
}

/// The data of paint `info` as the import reads it.
pub open spec fn data_from_info(info: &PaintInfo) -> DmaBufModel {
    let n = info.plane_count as int;
    DmaBufModel {
        fds: Seq::new(n as nat, |i: int| info.planes@[i].fd),
        format: info.format,
        modifier: info.modifier,
        width: info.coded_width as u32,
        height: info.coded_height as u32,
        strides: Seq::new(n as nat, |i: int| info.planes@[i].stride),
        offsets: Seq::new(n as nat, |i: int| info.planes@[i].offset as u32),
    }
}

/// Passing the descriptor checks from `i` on means every descriptor from `i`
/// on is non-negative and open.
pub proof fn lemma_fd_check_passed(fds: Seq<i32>, open: Seq<bool>, i: int)
    requires
        0 <= i,
        fd_check_from(fds, open, i) is Ok,
    ensures
        forall|j: int| i <= j < fds.len() ==> #[trigger] fds[j] >= 0 && open[j],
    decreases fds.len() - i,
{
    if i < fds.len() {
        lemma_fd_check_passed(fds, open, i + 1);
        assert forall|j: int| i <= j < fds.len() implies #[trigger] fds[j] >= 0 && open[j] by {
            if j == i {
                assert(fds[i] >= 0);
                assert(open[i]);
            } else {
                assert(fds[j] >= 0 && open[j]);
            }
        }
    }
}

/// A paint that passes the checks has planes, a size with no side 0, only open
/// non-negative descriptors, and matching texture and image formats.
pub proof fn lemma_accepted_import(m: DmaBufModel, open: Seq<bool>)
    requires
        import_check(m, open) is Ok,
    ensures
        m.fds.len() > 0,
        m.width > 0,
        m.height > 0,
        forall|j: int| 0 <= j < m.fds.len() ==> #[trigger] m.fds[j] >= 0 && open[j],
        import_check(m, open)->Ok_0.texture == TextureFormat::Bgra8Unorm <==> import_check(m, open)->Ok_0.vulkan == VulkanFormat::B8G8R8A8Unorm,
        import_check(m, open)->Ok_0.texture == TextureFormat::Bgra8Unorm <==> m.format == ColorType::Bgra8888,
{
    lemma_fd_check_passed(m.fds, open, 0);
}

/// The descriptor checks fail only for a descriptor.
pub proof fn lemma_fd_check_errors(fds: Seq<i32>, open: Seq<bool>, i: int)
    ensures
        fd_check_from(fds, open, i) is Ok
            || fd_check_from(fds, open, i) == Err::<(), DmaBufError>(DmaBufError::InvalidFileDescriptor)
            || fd_check_from(fds, open, i) == Err::<(), DmaBufError>(DmaBufError::FileDescriptorNotValid),
    decreases fds.len() - i,
{
    if 0 <= i < fds.len() {
        lemma_fd_check_errors(fds, open, i + 1);
    }
}

/// Passing every descriptor check from `i` on needs nothing more than open,
/// non-negative descriptors.
pub proof fn lemma_fd_check_passes(fds: Seq<i32>, open: Seq<bool>, i: int)
    requires
        0 <= i,
        open.len() == fds.len(),
        forall|j: int| 0 <= j < fds.len() ==> #[trigger] fds[j] >= 0 && open[j],
    ensures
        fd_check_from(fds, open, i) is Ok,
    decreases fds.len() - i,
{
    if i < fds.len() {
        assert(fds[i] >= 0 && open[i]);
        lemma_fd_check_passes(fds, open, i + 1);
    }
}

/// The import is refused for its parameters exactly when there are no planes
/// or a side is 0. A paint with planes, no side 0, only open non-negative
/// descriptors and an RGBA or BGRA layout is accepted, whatever its modifier
/// and strides, with the texture and image formats of that layout.
pub proof fn lemma_import_acceptance(m: DmaBufModel, open: Seq<bool>)
    requires
        open.len() == m.fds.len(),
    ensures
        (import_check(m, open) == Err::<ImportFormats, DmaBufError>(DmaBufError::InvalidParameters))
            <==> (m.fds.len() == 0 || m.width == 0 || m.height == 0),
        (m.fds.len() > 0 && m.width > 0 && m.height > 0 && (forall|j: int|
            0 <= j < m.fds.len() ==> #[trigger] m.fds[j] >= 0 && open[j])) ==> {
            &&& m.format == ColorType::Bgra8888 ==> import_check(m, open) == Ok::<ImportFormats, DmaBufError>(
                ImportFormats { texture: TextureFormat::Bgra8Unorm, vulkan: VulkanFormat::B8G8R8A8Unorm },
            )
            &&& m.format == ColorType::Rgba8888 ==> import_check(m, open) == Ok::<ImportFormats, DmaBufError>(
                ImportFormats { texture: TextureFormat::Rgba8Unorm, vulkan: VulkanFormat::R8G8B8A8Unorm },
            )
            &&& m.format is Other ==> import_check(m, open) == Err::<ImportFormats, DmaBufError>(
                DmaBufError::UnsupportedColorType(m.format),
            )
        },
        (exists|j: int| 0 <= j < m.fds.len() && (#[trigger] m.fds[j] < 0 || !open[j])) ==> import_check(m, open) is Err,
{
    lemma_fd_check_errors(m.fds, open, 0);
    if m.fds.len() > 0 && m.width > 0 && m.height > 0 && (forall|j: int|
        0 <= j < m.fds.len() ==> #[trigger] m.fds[j] >= 0 && open[j]) {
        lemma_fd_check_passes(m.fds, open, 0);
    }
    if exists|j: int| 0 <= j < m.fds.len() && (#[trigger] m.fds[j] < 0 || !open[j]) {
        if import_check(m, open) is Ok {
            lemma_accepted_import(m, open);
        }
    }
}

/// A paint without planes is never imported, whatever the descriptors.
pub proof fn lemma_paint_without_planes_rejected(info: &PaintInfo, open: Seq<bool>)
    requires
        info.plane_count == 0,
    ensures
        import_check(data_from_info(info), open) == Err::<ImportFormats, DmaBufError>(DmaBufError::InvalidParameters),
{
}

/// The layout of one plane for the Vulkan image.
#[derive(Clone, Copy, Debug, PartialEq, Eq, Structural)]
pub struct PlaneLayout {
    pub offset: u64,
    pub row_pitch: u64,
}

/// The value at `i`, or 0 past the end.
pub open spec fn value_or_zero(s: Seq<u32>, i: int) -> u32 {
    if 0 <= i < s.len() { s[i] } else { 0 }
}

impl DmaBufData {
    /// Takes the planes in use, the pixel layout, the modifier and the coded size
    /// of a paint.
    pub fn from_info(info: &PaintInfo) -> (d: Self)
        requires
            0 <= info.plane_count <= info.planes@.len(),
        ensures
            d@ == data_from_info(info),
    {
        let plane_count = info.plane_count as usize;
        let mut fds: Vec<i32> = Vec::new();
        let mut strides: Vec<u32> = Vec::new();
        let mut offsets: Vec<u32> = Vec::new();
        let mut i: usize = 0;
        while i < plane_count
            invariant
                plane_count == info.plane_count as int,
                plane_count <= info.planes@.len(),
                i <= plane_count,
                fds@ =~= Seq::new(i as nat, |j: int| info.planes@[j].fd),
                strides@ =~= Seq::new(i as nat, |j: int| info.planes@[j].stride),
                offsets@ =~= Seq::new(i as nat, |j: int| info.planes@[j].offset as u32),
            decreases plane_count - i,
        {
            let plane = &info.planes[i];
            fds.push(plane.fd);
            strides.push(plane.stride);
            offsets.push(plane.offset as u32);
            i = i + 1;
        }
        DmaBufData {
            fds,
            format: info.format,
            modifier: info.modifier,
            width: info.coded_width as u32,
            height: info.coded_height as u32,
            strides,
            offsets,
        }
    }

    /// The file descriptors of the planes.
    pub fn fds(&self) -> (r: &Vec<i32>)
        ensures
            r@ == self@.fds,
    {
        &self.fds
    }

    /// The DRM format modifier.
    pub fn modifier(&self) -> (r: u64)
        ensures
            r == self@.modifier,
    {
        self.modifier
    }

    /// The size of the texture in pixels.
    pub fn size(&self) -> (r: (u32, u32))
        ensures
            r == (self@.width, self@.height),
    {
        (self.width, self.height)
    }

    /// The first of the import checks, which needs no descriptor query: there
    /// are planes and neither side is 0.
    pub fn check_parameters(&self) -> (r: Result<(), DmaBufError>)
        ensures
            r == (if self@.fds.len() == 0 || self@.width == 0 || self@.height == 0 {
                Err(DmaBufError::InvalidParameters)
            } else {
                Ok(())
            }),
            r is Err ==> forall|open: Seq<bool>|
                #[trigger] import_check(self@, open) == Err::<ImportFormats, DmaBufError>(
                    DmaBufError::InvalidParameters,
                ),
    {
        if self.fds.len() == 0 || self.width == 0 || self.height == 0 {
            Err(DmaBufError::InvalidParameters)
        } else {
            Ok(())
        }
    }

    /// Checks, before an import, the parameters, each file descriptor in turn
    /// (`open[i]` tells whether `fds[i]` is open in this process) and the pixel
    /// layout, and gives the formats to import as.
    pub fn check_import(&self, open: &Vec<bool>) -> (r: Result<ImportFormats, DmaBufError>)
        requires
            open@.len() == self@.fds.len(),
        ensures
            r == import_check(self@, open@),
            (r == Err::<ImportFormats, DmaBufError>(DmaBufError::InvalidParameters)) <==> (self@.fds.len()
                == 0 || self@.width == 0 || self@.height == 0),
    {
        proof {
            lemma_fd_check_errors(self.fds@, open@, 0);
        }
        if self.fds.len() == 0 || self.width == 0 || self.height == 0 {
            return Err(DmaBufError::InvalidParameters);
        }
        let mut i: usize = 0;
        while i < self.fds.len()
            invariant
                open@.len() == self.fds@.len(),
                self.fds@.len() > 0,
                self.width != 0,
                self.height != 0,
                i <= self.fds@.len(),
                fd_check_from(self.fds@, open@, 0) == fd_check_from(self.fds@, open@, i as int),
            decreases self.fds@.len() - i,
        {
            if self.fds[i] < 0 {
                return Err(DmaBufError::InvalidFileDescriptor);
            }
            if !open[i] {
                return Err(DmaBufError::FileDescriptorNotValid);
            }
            i = i + 1;
        }
        let texture = match cef_to_wgpu(self.format) {
            Ok(t) => t,
            Err(e) => {
                return Err(e);
            },
        };
        let vulkan = match cef_to_vulkan(self.format) {
            Ok(v) => v,
            Err(e) => {
                return Err(e);
            },
        };
        Ok(ImportFormats { texture, vulkan })
    }

    /// The layout of each plane for the Vulkan image: its offset and row pitch,
    /// 0 where none was given.
    pub fn plane_layouts(&self) -> (r: Vec<PlaneLayout>)
        ensures
            r@.len() == self@.fds.len(),
            forall|i: int|
                0 <= i < r@.len() ==> #[trigger] r@[i] == (PlaneLayout {
                    offset: value_or_zero(self@.offsets, i) as u64,
                    row_pitch: value_or_zero(self@.strides, i) as u64,
                }),
    {
        let mut r: Vec<PlaneLayout> = Vec::new();
        let mut i: usize = 0;
        while i < self.fds.len()
            invariant
                i <= self.fds@.len(),
                r@.len() == i,
                forall|j: int|
                    0 <= j < i ==> #[trigger] r@[j] == (PlaneLayout {
                        offset: value_or_zero(self.offsets@, j) as u64,
                        row_pitch: value_or_zero(self.strides@, j) as u64,
                    }),
            decreases self.fds@.len() - i,
        {
            let offset: u32 = if i < self.offsets.len() { self.offsets[i] } else { 0 };
            let row_pitch: u32 = if i < self.strides.len() { self.strides[i] } else { 0 };
            r.push(PlaneLayout { offset: offset as u64, row_pitch: row_pitch as u64 });
            i = i + 1;
        }
        r
    }
}

/// What the physical device offers: the number of memory types and the
/// property flags of each.
pub struct MemoryProperties {
    pub memory_type_count: u32,
    pub property_flags: Vec<u32>,
}

/// Memory type `i` is allowed by `type_filter` and has all of `properties`.
pub open spec fn memory_type_suits(type_filter: u32, properties: u32, flags: Seq<u32>, i: int) -> bool {
    &&& (type_filter >> (i as u32)) & 1 == 1
    &&& flags[i] & properties == properties
}

/// Finds the first memory type that the filter allows and that has all the
/// requested properties.
pub fn find_memory_type_index(
    type_filter: u32,
    properties: u32,
    mem_properties: &MemoryProperties,
) -> (r: Option<u32>)
    requires
        mem_properties.memory_type_count <= 32,
        mem_properties.memory_type_count <= mem_properties.property_flags@.len(),
    ensures
        r matches Some(i) ==> i < mem_properties.memory_type_count && memory_type_suits(
            type_filter,
            properties,
            mem_properties.property_flags@,
            i as int,
        ) && forall|j: int|
            0 <= j < i ==> !#[trigger] memory_type_suits(
                type_filter,
                properties,
                mem_properties.property_flags@,
                j,
            ),
        r is None ==> forall|j: int|
            0 <= j < mem_properties.memory_type_count ==> !#[trigger] memory_type_suits(
                type_filter,
                properties,
                mem_properties.property_flags@,
                j,
            ),
{
    let count = mem_properties.memory_type_count;
    let mut i: u32 = 0;
    while i < count
        invariant
            count == mem_properties.memory_type_count,
            count <= 32,
            count <= mem_properties.property_flags@.len(),
            i <= count,
            forall|j: int|
                0 <= j < i ==> !#[trigger] memory_type_suits(
                    type_filter,
                    properties,
                    mem_properties.property_flags@,
                    j,
                ),
        decreases count - i,
    {
        let bit: u32 = 1u32 << i;
        let allowed = (type_filter & bit) != 0;
        assert(allowed == ((type_filter >> i) & 1 == 1)) by (bit_vector)
            requires
                i < 32,
                bit == 1u32 << i,
                allowed == ((type_filter & bit) != 0),
        ;
        let flags = mem_properties.property_flags[i as usize];
        if allowed && (flags & properties) == properties {
            return Some(i);
        }
        i = i + 1;
    }
    None
}

/// A suitable memory type is allowed by its bit of the filter and lacks none
/// of the requested property bits.
pub proof fn lemma_memory_type_suits_bits(type_filter: u32, properties: u32, flags: Seq<u32>, i: int)
    requires
        0 <= i < 32,
        i < flags.len(),
    ensures
        memory_type_suits(type_filter, properties, flags, i) <==> (type_filter & (1u32 << (i as u32))
            != 0 && properties & !flags[i] == 0),
{
    let f = flags[i];
    let k = i as u32;
    assert((type_filter >> k) & 1 == 1 <==> type_filter & (1u32 << k) != 0) by (bit_vector)
        requires k < 32;
    assert(f & properties == properties <==> properties & !f == 0) by (bit_vector);
}

} // verus!
