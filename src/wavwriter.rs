use vstd::prelude::*;

verus! {

/// The format code of uncompressed samples.
pub const WAV_FORMAT_PCM: u16 = 0x01;

/// The two bytes of `x`, least significant first.
pub open spec fn le16(x: int) -> Seq<u8> {
    seq![(x % 256) as u8, ((x / 256) % 256) as u8]
}

/// The four bytes of `x`, least significant first.
pub open spec fn le32(x: int) -> Seq<u8> {
    le16(x % 65536) + le16(x / 65536)
}

/// The bytes a frame of all channels takes.
pub open spec fn block_align(channel_count: u16, bits_per_sample: u16) -> int {
    (bits_per_sample as int / 8) * channel_count as int
}

/// The body of the format chunk of a WAV file: format, channels, frames per
/// second, bytes per second, bytes per frame and bits per sample.
pub open spec fn wav_header(
    audio_format: u16,
    channel_count: u16,
    sampling_rate: u32,
    bits_per_sample: u16,
) -> Seq<u8> {
    le16(audio_format as int) + le16(channel_count as int) + le32(sampling_rate as int) + le32(
        block_align(channel_count, bits_per_sample) * sampling_rate,
    ) + le16(block_align(channel_count, bits_per_sample)) + le16(bits_per_sample as int)
}

/// The bytes of 16-bit samples, each least significant byte first.
pub open spec fn sample_bytes(samples: Seq<i16>) -> Seq<u8> {
    Seq::new(
        2 * samples.len(),
        |i: int|
            {
                let s = samples[i / 2] as int;
                let u = if s < 0 {
                    s + 65536
                } else {
                    s
                };
                if i % 2 == 0 {
                    (u % 256) as u8
                } else {
                    (u / 256) as u8
                }
            },
    )
}

/// The two bytes of `x`, least significant first.
fn le16_of(x: u32) -> (r: (u8, u8))
    requires
        x <= 0xffff,
    ensures
        seq![r.0, r.1] == le16(x as int),
{
    ((x % 256) as u8, ((x / 256) % 256) as u8)
}

/// The four bytes of `x`, least significant first.
fn le32_of(x: u32) -> (r: (u8, u8, u8, u8))
    ensures
        seq![r.0, r.1, r.2, r.3] == le32(x as int),
{
    let low = le16_of(x % 65536);
    let high = le16_of(x / 65536);
    assert(seq![low.0, low.1, high.0, high.1] =~= seq![low.0, low.1] + seq![high.0, high.1]);
    (low.0, low.1, high.0, high.1)
}

/// The format chunk body of a WAV file.
pub fn get_wav_header(
    audio_format: u16,
    channel_count: u16,
    sampling_rate: u32,
    bits_per_sample: u16,
) -> (r: [u8; 16])
    requires
        block_align(channel_count, bits_per_sample) <= u16::MAX,
        block_align(channel_count, bits_per_sample) * sampling_rate <= u32::MAX,
    ensures
        r@ == wav_header(audio_format, channel_count, sampling_rate, bits_per_sample),
{
    let bpsamp = (bits_per_sample / 8) * channel_count;
    let bpsec = bpsamp as u32 * sampling_rate;
    let f = le16_of(audio_format as u32);
    let c = le16_of(channel_count as u32);
    let s = le32_of(sampling_rate);
    let p = le32_of(bpsec);
    let a = le16_of(bpsamp as u32);
    let b = le16_of(bits_per_sample as u32);
    let r = [f.0, f.1, c.0, c.1, s.0, s.1, s.2, s.3, p.0, p.1, p.2, p.3, a.0, a.1, b.0, b.1];
    assert(r@ =~= seq![f.0, f.1] + seq![c.0, c.1] + seq![s.0, s.1, s.2, s.3] + seq![
        p.0,
        p.1,
        p.2,
        p.3,
    ] + seq![a.0, a.1] + seq![b.0, b.1]);
    r
}

/// The bytes of the data chunk of a WAV file of 16-bit samples.
pub fn samples_to_le_bytes(samples: &[i16]) -> (r: Vec<u8>)
    requires
        2 * samples@.len() <= usize::MAX,
    ensures
        r@ == sample_bytes(samples@),
{
    let mut bytes: Vec<u8> = Vec::with_capacity(2 * samples.len());
    let mut i: usize = 0;
    while i < samples.len()
        invariant
            i <= samples@.len(),
            bytes@ =~= sample_bytes(samples@.subrange(0, i as int)),
        decreases samples@.len() - i,
    {
        let s = samples[i];
        let u: u16 = if s < 0 {
            (s as i32 + 65536) as u16
        } else {
            s as u16
        };
        bytes.push((u % 256) as u8);
        bytes.push((u / 256) as u8);
        i = i + 1;
        assert(bytes@ =~= sample_bytes(samples@.subrange(0, i as int)));
    }
    assert(samples@.subrange(0, samples@.len() as int) =~= samples@);
    bytes
}

/// A RIFF data chunk: its id, its length, its bytes, and a zero byte after an
/// odd number of bytes.
pub open spec fn data_chunk(id: Seq<u8>, data: Seq<u8>) -> Seq<u8> {
    id + le32(data.len() as int) + data + if data.len() % 2 == 1 {
        seq![0u8]
    } else {
        Seq::<u8>::empty()
    }
}

/// The id that opens every RIFF file.
pub open spec fn riff_id() -> Seq<u8> {
    seq![0x52u8, 0x49, 0x46, 0x46]
}

/// A RIFF form of type `form_type` around the chunks `body`.
pub open spec fn riff_form(form_type: Seq<u8>, body: Seq<u8>) -> Seq<u8> {
    riff_id() + le32(4 + body.len() as int) + form_type + body
}

/// A RIFF length field holds 32 bits.
pub open spec fn fits_riff(first: Seq<u8>, second: Seq<u8>) -> bool {
    &&& first.len() <= u32::MAX
    &&& second.len() <= u32::MAX
    &&& 4 + data_chunk(seq![0u8, 0, 0, 0], first).len() + data_chunk(seq![0u8, 0, 0, 0], second).len()
        <= u32::MAX
}

/// Relies on riff::ChunkContents::write: a `Children` form with the RIFF id,
/// holding two `Data` chunks, written into an in-memory cursor. When every
/// size fits in 32 bits the write succeeds, since writing and seeking within
/// a `Cursor<Vec<u8>>` do not fail; the form's length field is then the length
/// of its type and chunks.
#[verifier::external_body]
fn riff_form_of_two(
    form_type: [u8; 4],
    first_id: [u8; 4],
    first: Vec<u8>,
    second_id: [u8; 4],
    second: Vec<u8>,
) -> (r: Option<Vec<u8>>)
    requires
        fits_riff(first@, second@),
    ensures
        r is Some,
        r->Some_0@ == riff_form(
            form_type@,
            data_chunk(first_id@, first@) + data_chunk(second_id@, second@),
        ),
{
    let form = riff::ChunkContents::Children(
        riff::RIFF_ID,
        riff::ChunkId { value: form_type },
        vec![
            riff::ChunkContents::Data(riff::ChunkId { value: first_id }, first),
            riff::ChunkContents::Data(riff::ChunkId { value: second_id }, second),
        ],
    );
    let mut cursor = std::io::Cursor::new(Vec::new());
    match form.write(&mut cursor) {
        Ok(_) => Some(cursor.into_inner()),
        Err(_) => None,
    }
}

/// The bytes of a mono WAV file of 16-bit samples at `rate` frames per
/// second; `None` when the samples do not fit in a WAV file.
pub fn wav_file_bytes(samples: &[i16], rate: u32) -> (r: Option<Vec<u8>>)
    requires
        2 * rate <= u32::MAX,
        2 * samples@.len() <= usize::MAX,
    ensures
        ({
            let header = wav_header(WAV_FORMAT_PCM, 1, rate, 16);
            let data = sample_bytes(samples@);
            match r {
                Some(bytes) => {
                    &&& fits_riff(header, data)
                    &&& bytes@ == riff_form(
                        seq![0x57u8, 0x41, 0x56, 0x45],
                        data_chunk(seq![0x66u8, 0x6d, 0x74, 0x20], header) + data_chunk(
                            seq![0x64u8, 0x61, 0x74, 0x61],
                            data,
                        ),
                    )
                },
                None => !fits_riff(header, data),
            }
        }),
{
    let header = get_wav_header(WAV_FORMAT_PCM, 1, rate, 16);
    let data = samples_to_le_bytes(samples);
    let wave: [u8; 4] = [0x57, 0x41, 0x56, 0x45];
    let fmt: [u8; 4] = [0x66, 0x6d, 0x74, 0x20];
    let data_id: [u8; 4] = [0x64, 0x61, 0x74, 0x61];
    let header_bytes = header_vec(&header);
    let n = data.len();
    let total: u128 = 36 + n as u128 + (n % 2) as u128;
    assert(le32(0).len() == 4);
    assert(data_chunk(seq![0u8, 0, 0, 0], header_bytes@).len() == 24);
    assert(data_chunk(seq![0u8, 0, 0, 0], data@).len() == 8 + n + n % 2);
    if total > u32::MAX as u128 {
        return None;
    }
    let r = riff_form_of_two(wave, fmt, header_bytes, data_id, data);
    assert(wave@ =~= seq![0x57u8, 0x41, 0x56, 0x45]);
    assert(fmt@ =~= seq![0x66u8, 0x6d, 0x74, 0x20]);
    assert(data_id@ =~= seq![0x64u8, 0x61, 0x74, 0x61]);
    r
}

/// The header as a vector of bytes.
fn header_vec(header: &[u8; 16]) -> (r: Vec<u8>)
    ensures
        r@ == header@,
{
    let mut v: Vec<u8> = Vec::with_capacity(16);
    let mut i: usize = 0;
    while i < 16
        invariant
            i <= 16,
            v@ == header@.subrange(0, i as int),
        decreases 16 - i,
    {
        v.push(header[i]);
        i = i + 1;
        assert(v@ =~= header@.subrange(0, i as int));
    }
    assert(header@.subrange(0, 16) =~= header@);
    v
}

} // verus!
