use voice_pipeline::multimodal::build_wav;

fn le32(b: &[u8]) -> u32 {
    u32::from_le_bytes([b[0], b[1], b[2], b[3]])
}

fn le16(b: &[u8]) -> u16 {
    u16::from_le_bytes([b[0], b[1]])
}

#[test]
fn header_fields_read_back() {
    let pcm: Vec<u8> = (0..100u8).collect();
    let wav = build_wav(&pcm, 44100);
    assert_eq!(wav.len(), 144);
    assert_eq!(&wav[0..4], b"RIFF");
    assert_eq!(le32(&wav[4..8]), 136);
    assert_eq!(&wav[8..12], b"WAVE");
    assert_eq!(&wav[12..16], b"fmt ");
    assert_eq!(le32(&wav[16..20]), 16);
    assert_eq!(le16(&wav[20..22]), 1);
    assert_eq!(le16(&wav[22..24]), 1);
    assert_eq!(le32(&wav[24..28]), 44100);
    assert_eq!(le32(&wav[28..32]), 88200);
    assert_eq!(le16(&wav[32..34]), 2);
    assert_eq!(le16(&wav[34..36]), 16);
    assert_eq!(&wav[36..40], b"data");
    assert_eq!(le32(&wav[40..44]), 100);
    assert_eq!(&wav[44..], &pcm[..]);
}

#[test]
fn empty_audio_gives_bare_header() {
    let wav = build_wav(&[], 16000);
    assert_eq!(wav.len(), 44);
    assert_eq!(le32(&wav[4..8]), 36);
    assert_eq!(le32(&wav[40..44]), 0);
    assert_eq!(le32(&wav[28..32]), 32000);
}
