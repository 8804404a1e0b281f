use yeet_at::{PostHeader, UserProfile, YeetError};

fn packed_profile(owner: &[u8; 32], count: u64) -> Vec<u8> {
    let mut v = vec![1u8];
    v.extend_from_slice(owner);
    v.extend_from_slice(&count.to_le_bytes());
    v
}

#[test]
fn test_profile_round_trip() {
    let p = UserProfile { owner: [3u8; 32], post_count: 7 };
    let mut data = vec![0u8; 41];
    p.pack_into_slice(&mut data);
    let q = UserProfile::unpack_from_slice(&data).unwrap();
    assert_eq!(q.owner, p.owner);
    assert_eq!(q.post_count, p.post_count);
}

#[test]
fn test_profile_layout_exact() {
    let owner = [9u8; 32];
    let p = UserProfile { owner, post_count: 0x0102030405060708 };
    let mut data = vec![0u8; 41];
    p.pack_into_slice(&mut data);
    assert_eq!(data, packed_profile(&owner, 0x0102030405060708));
    assert_eq!(data[0], 1);
    assert_eq!(&data[1..33], &owner[..]);
    assert_eq!(&data[33..41], &[8u8, 7, 6, 5, 4, 3, 2, 1]);
}

#[test]
fn test_profile_pack_preserves_tail() {
    let p = UserProfile { owner: [1u8; 32], post_count: 5 };
    let mut data = vec![0xAAu8; 44];
    p.pack_into_slice(&mut data);
    assert_eq!(&data[41..], &[0xAAu8, 0xAA, 0xAA]);
}

#[test]
fn test_profile_unpack_short_buffer() {
    let data = vec![1u8; 40];
    assert_eq!(
        UserProfile::unpack_from_slice(&data).unwrap_err(),
        YeetError::MalformedAccountData
    );
}

#[test]
fn test_profile_unpack_uninitialized_tag() {
    let data = vec![0u8; 41];
    assert_eq!(
        UserProfile::unpack_from_slice(&data).unwrap_err(),
        YeetError::UninitializedRecord
    );
}

#[test]
fn test_post_header_round_trip() {
    let h = PostHeader { author: [5u8; 32], index: 11, content_len: 200 };
    let mut data = vec![0u8; 43];
    h.pack_into_slice(&mut data);
    let g = PostHeader::unpack_from_slice(&data).unwrap();
    assert_eq!(g.author, h.author);
    assert_eq!(g.index, h.index);
    assert_eq!(g.content_len, h.content_len);
}

#[test]
fn test_post_header_layout_exact() {
    let author = [4u8; 32];
    let h = PostHeader { author, index: 1, content_len: 2 };
    let mut data = vec![0u8; 43];
    h.pack_into_slice(&mut data);
    assert_eq!(data[0], 2);
    assert_eq!(&data[1..33], &author[..]);
    assert_eq!(&data[33..41], &[1u8, 0, 0, 0, 0, 0, 0, 0]);
    assert_eq!(&data[41..43], &[2u8, 0]);
}

#[test]
fn test_post_header_unpack_short_buffer() {
    let data = vec![2u8; 42];
    assert_eq!(
        PostHeader::unpack_from_slice(&data).unwrap_err(),
        YeetError::MalformedAccountData
    );
}

#[test]
fn test_post_header_unpack_wrong_tag() {
    let data = vec![0u8; 43];
    assert_eq!(
        PostHeader::unpack_from_slice(&data).unwrap_err(),
        YeetError::UninitializedRecord
    );
}
