use leafish::render::{generate_element_buffer, ElementType};

fn u16s(data: &[u8]) -> Vec<u16> {
    data.chunks(2).map(|c| u16::from_ne_bytes([c[0], c[1]])).collect()
}

fn u32s(data: &[u8]) -> Vec<u32> {
    data.chunks(4).map(|c| u32::from_ne_bytes([c[0], c[1], c[2], c[3]])).collect()
}

#[test]
fn two_quads_use_short_indices() {
    let (data, ty) = generate_element_buffer(12);
    assert_eq!(ty, ElementType::UnsignedShort);
    assert_eq!(u16s(&data), vec![0, 1, 2, 2, 1, 3, 4, 5, 6, 6, 5, 7]);
}

#[test]
fn a_partial_quad_is_left_out() {
    let (data, ty) = generate_element_buffer(5);
    assert_eq!(ty, ElementType::UnsignedShort);
    assert!(data.is_empty());
    let (data, _) = generate_element_buffer(11);
    assert_eq!(u16s(&data), vec![0, 1, 2, 2, 1, 3]);
}

#[test]
fn many_quads_use_int_indices() {
    let (data, ty) = generate_element_buffer(6 * 5461);
    assert_eq!(ty, ElementType::UnsignedShort);
    assert_eq!(data.len(), 12 * 5461);
    let (data, ty) = generate_element_buffer(6 * 5462);
    assert_eq!(ty, ElementType::UnsignedInt);
    assert_eq!(data.len(), 24 * 5462);
    let v = u32s(&data);
    assert_eq!(&v[..6], &[0, 1, 2, 2, 1, 3]);
    assert_eq!(&v[v.len() - 6..], &[21844, 21845, 21846, 21846, 21845, 21847]);
}
