use mania::tri_sha1::TriSha1;

fn make_data(size: usize) -> Vec<u8> {
    let pat = b"114514";
    let mut data = Vec::with_capacity(size);
    while data.len() < size {
        let rem = size - data.len();
        let n = rem.min(pat.len());
        data.extend_from_slice(&pat[..n]);
    }
    data
}

fn inner_test(size: u64) -> String {
    let mut hasher = TriSha1::new(size);
    let data = make_data(size as usize);
    for chunk in data.chunks(8192) {
        hasher.update(chunk);
    }
    hex::encode(&hasher.finalize())
}

#[test]
fn tri_sha1_small() {
    let size = 5 * 1024 * 1024;
    assert_eq!(inner_test(size), "8f155d8b6b1a9c196597b01d142f0d046ad44923")
}

#[test]
fn tri_sha1_mid() {
    let size = 15 * 1024 * 1024;
    assert_eq!(inner_test(size), "4748e8fdf867ea92d4d636e7312585ed93c80d0d")
}

#[test]
fn tri_sha1_large() {
    let size = 50 * 1024 * 1024;
    assert_eq!(inner_test(size), "90d9a46f42f48dcee04f7390d4748e2a4c11d099")
}

#[test]
fn tri_sha1_chunking_does_not_matter() {
    let size: u64 = 40 * 1024 * 1024;
    let data = make_data(size as usize);
    let mut whole = TriSha1::new(size);
    whole.update(&data);
    let mut parts = TriSha1::new(size);
    for chunk in data.chunks(1000003) {
        parts.update(chunk);
    }
    assert_eq!(whole.finalize(), parts.finalize());
}

#[test]
fn tri_sha1_empty_file() {
    let hasher = TriSha1::new(0);
    // SHA-1 of the eight bytes of the size 0
    assert_eq!(hex::encode(&hasher.finalize()), "05fe405753166f125559e7c9ac558654f107c7e9");
}
