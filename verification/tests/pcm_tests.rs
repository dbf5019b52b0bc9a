use homebot::tts::pcm::upsample_pcm;

fn samples(bytes: &[u8]) -> Vec<i16> {
    bytes.chunks_exact(2).map(|c| i16::from_le_bytes([c[0], c[1]])).collect()
}

fn bytes(samples: &[i16]) -> Vec<u8> {
    samples.iter().flat_map(|s| s.to_le_bytes()).collect()
}

#[test]
fn upsample_of_nothing_is_nothing() {
    assert_eq!(upsample_pcm(&[]), Vec::<u8>::new());
    assert_eq!(upsample_pcm(&[7]), Vec::<u8>::new());
}

#[test]
fn upsample_of_one_sample_is_that_sample() {
    assert_eq!(upsample_pcm(&bytes(&[-1000])), bytes(&[-1000]));
}

#[test]
fn upsample_inserts_means() {
    let out = upsample_pcm(&bytes(&[0, 2, 10, -4]));
    assert_eq!(samples(&out), vec![0, 1, 2, 6, 10, 3, -4]);
}

#[test]
fn upsample_rounds_toward_zero() {
    let out = upsample_pcm(&bytes(&[0, -3, 3, -32768, -32767, 32767]));
    assert_eq!(samples(&out), vec![0, -1, -3, 0, 3, -16382, -32768, -32767, -32767, 0, 32767]);
}

#[test]
fn upsample_ignores_a_trailing_odd_byte() {
    let mut raw = bytes(&[100, 200]);
    raw.push(0x55);
    assert_eq!(samples(&upsample_pcm(&raw)), vec![100, 150, 200]);
}

#[test]
fn upsample_keeps_every_original_sample() {
    let input: Vec<i16> = (0..50).map(|i| ((i * 7919) % 65536 - 32768) as i16).collect();
    let out = samples(&upsample_pcm(&bytes(&input)));
    assert_eq!(out.len(), 2 * input.len() - 1);
    let kept: Vec<i16> = out.iter().step_by(2).cloned().collect();
    assert_eq!(kept, input);
}
