use rbc_node::digest::digest;

#[test]
fn digest_is_blake3() {
    let d = digest(&b"hello".to_vec());
    assert_eq!(d, *blake3::hash(b"hello").as_bytes());
    assert_ne!(d.to_vec(), b"hello".to_vec());
}

#[test]
fn digest_of_empty_payload_is_the_known_value() {
    let d = digest(&Vec::new());
    let hex: String = d.iter().map(|b| format!("{:02x}", b)).collect();
    assert_eq!(hex, "af1349b9f5f9a1a6a0404dea36dcc9499bcb25c9adc112b7cc9a93cae41f3262");
}

#[test]
fn digest_is_deterministic() {
    let p = b"block proposal from node 1 at around 7".to_vec();
    assert_eq!(digest(&p), digest(&p.clone()));
}

#[test]
fn digest_differs_for_different_payloads() {
    let payloads: Vec<Vec<u8>> = vec![
        Vec::new(),
        vec![0],
        vec![1],
        vec![0, 0],
        b"hello".to_vec(),
        b"hellp".to_vec(),
        b"Hello".to_vec(),
    ];
    for i in 0..payloads.len() {
        for j in 0..payloads.len() {
            if i != j {
                assert_ne!(digest(&payloads[i]), digest(&payloads[j]));
            }
        }
    }
}
