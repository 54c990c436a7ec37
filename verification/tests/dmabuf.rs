use tauri_runtime_cef::dmabuf::{
    cef_to_vulkan, cef_to_wgpu, find_memory_type_index, ColorType, DmaBufData, DmaBufError,
    ImportFormats, MemoryProperties, PaintInfo, PixmapPlane, PlaneLayout, TextureFormat,
    VulkanFormat,
};

fn plane(fd: i32, stride: u32, offset: u64) -> PixmapPlane {
    PixmapPlane { fd, stride, offset }
}

fn info(planes: Vec<PixmapPlane>, count: i32, format: ColorType, w: i32, h: i32) -> PaintInfo {
    let mut slots = planes;
    while slots.len() < 4 {
        slots.push(plane(0, 0, 0));
    }
    PaintInfo { planes: slots, plane_count: count, modifier: 0x0100_0000_0000_0001, format, coded_width: w, coded_height: h }
}

#[test]
fn from_info_takes_planes_in_use() {
    let i = info(
        vec![plane(7, 4096, 0), plane(8, 2048, 0x1_0000_0010), plane(9, 1, 1)],
        2,
        ColorType::Bgra8888,
        640,
        480,
    );
    let d = DmaBufData::from_info(&i);
    assert_eq!(d.fds(), &vec![7, 8]);
    assert_eq!(d.size(), (640, 480));
    assert_eq!(d.modifier(), 0x0100_0000_0000_0001);
    assert_eq!(
        d.plane_layouts(),
        vec![PlaneLayout { offset: 0, row_pitch: 4096 }, PlaneLayout { offset: 0x10, row_pitch: 2048 }]
    );
}

#[test]
fn negative_coded_size_wraps() {
    let d = DmaBufData::from_info(&info(vec![plane(3, 1, 0)], 1, ColorType::Rgba8888, -1, 2));
    assert_eq!(d.size(), (u32::MAX, 2));
}

#[test]
fn import_checks_in_order() {
    let ok = DmaBufData::from_info(&info(vec![plane(3, 4, 0)], 1, ColorType::Rgba8888, 4, 4));
    assert_eq!(
        ok.check_import(&vec![true]),
        Ok(ImportFormats { texture: TextureFormat::Rgba8Unorm, vulkan: VulkanFormat::R8G8B8A8Unorm })
    );
    assert_eq!(ok.check_import(&vec![false]), Err(DmaBufError::FileDescriptorNotValid));

    let none = DmaBufData::from_info(&info(vec![], 0, ColorType::Rgba8888, 4, 4));
    assert_eq!(none.check_import(&vec![]), Err(DmaBufError::InvalidParameters));

    let zero = DmaBufData::from_info(&info(vec![plane(3, 4, 0)], 1, ColorType::Rgba8888, 0, 4));
    assert_eq!(zero.check_import(&vec![true]), Err(DmaBufError::InvalidParameters));

    let neg = DmaBufData::from_info(&info(vec![plane(5, 4, 0), plane(-1, 4, 0)], 2, ColorType::Bgra8888, 4, 4));
    assert_eq!(neg.check_import(&vec![true, true]), Err(DmaBufError::InvalidFileDescriptor));
    // the first descriptor is checked first
    assert_eq!(neg.check_import(&vec![false, true]), Err(DmaBufError::FileDescriptorNotValid));

    let other = DmaBufData::from_info(&info(vec![plane(3, 4, 0)], 1, ColorType::Other(2), 4, 4));
    assert_eq!(
        other.check_import(&vec![true]),
        Err(DmaBufError::UnsupportedColorType(ColorType::Other(2)))
    );
    let bgra = DmaBufData::from_info(&info(vec![plane(3, 4, 0)], 1, ColorType::Bgra8888, 4, 4));
    assert_eq!(
        bgra.check_import(&vec![true]),
        Ok(ImportFormats { texture: TextureFormat::Bgra8Unorm, vulkan: VulkanFormat::B8G8R8A8Unorm })
    );
}

#[test]
fn color_type_formats() {
    assert_eq!(cef_to_wgpu(ColorType::Bgra8888), Ok(TextureFormat::Bgra8Unorm));
    assert_eq!(cef_to_wgpu(ColorType::Rgba8888), Ok(TextureFormat::Rgba8Unorm));
    assert_eq!(cef_to_vulkan(ColorType::Bgra8888), Ok(VulkanFormat::B8G8R8A8Unorm));
    assert_eq!(cef_to_vulkan(ColorType::Rgba8888), Ok(VulkanFormat::R8G8B8A8Unorm));
    assert_eq!(
        cef_to_vulkan(ColorType::Other(7)),
        Err(DmaBufError::UnsupportedColorType(ColorType::Other(7)))
    );
}

#[test]
fn memory_type_search() {
    let props = MemoryProperties { memory_type_count: 4, property_flags: vec![0b001, 0b110, 0b111, 0b010] };
    assert_eq!(find_memory_type_index(0b1111, 0, &props), Some(0));
    assert_eq!(find_memory_type_index(0b1110, 0b010, &props), Some(1));
    assert_eq!(find_memory_type_index(0b1101, 0b010, &props), Some(2));
    assert_eq!(find_memory_type_index(0b1111, 0b101, &props), Some(2));
    assert_eq!(find_memory_type_index(0b0011, 0b100, &props), Some(1));
    assert_eq!(find_memory_type_index(0b0001, 0b100, &props), None);
    assert_eq!(find_memory_type_index(0, 0, &props), None);
    // types past the count are not looked at
    let short = MemoryProperties { memory_type_count: 1, property_flags: vec![0, 0xff] };
    assert_eq!(find_memory_type_index(0b10, 0, &short), None);
    let full = MemoryProperties { memory_type_count: 32, property_flags: vec![0; 32] };
    assert_eq!(find_memory_type_index(1 << 31, 0, &full), Some(31));
}

#[test]
fn parameter_check_needs_no_descriptors() {
    let ok = DmaBufData::from_info(&info(vec![plane(-1, 4, 0)], 1, ColorType::Rgba8888, 4, 4));
    assert_eq!(ok.check_parameters(), Ok(()));
    let none = DmaBufData::from_info(&info(vec![], 0, ColorType::Rgba8888, 4, 4));
    assert_eq!(none.check_parameters(), Err(DmaBufError::InvalidParameters));
    let flat = DmaBufData::from_info(&info(vec![plane(3, 4, 0)], 1, ColorType::Rgba8888, 4, 0));
    assert_eq!(flat.check_parameters(), Err(DmaBufError::InvalidParameters));
    assert_eq!(flat.check_import(&vec![true]), Err(DmaBufError::InvalidParameters));
}
