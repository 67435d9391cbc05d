//! The byte layout of the WAV files this tool writes: 16 kHz, mono,
//! 16-bit PCM, little-endian, with the canonical 44-byte header.

use vstd::prelude::*;

verus! {

/// A 16-bit value, little-endian.
pub open spec fn le16_spec(x: int) -> Seq<u8> {
    seq![(x % 256) as u8, ((x / 256) % 256) as u8]
}

/// A 32-bit value, little-endian.
pub open spec fn le32_spec(x: int) -> Seq<u8> {
    seq![
        (x % 256) as u8,
        ((x / 256) % 256) as u8,
        ((x / 65536) % 256) as u8,
        ((x / 16777216) % 256) as u8,
    ]
}

/// The two's-complement bit pattern of a sample, as an unsigned value.
pub open spec fn sample_bits_spec(s: i16) -> int {
    if s >= 0 {
        s as int
    } else {
        65536 + s
    }
}

/// The 44-byte canonical WAV header for `n` mono 16-bit samples at 16 kHz.
pub open spec fn wav_header_spec(n: int) -> Seq<u8> {
    "RIFF"@.map_values(|c: char| c as u8) + le32_spec(n * 2 + 36) + "WAVE"@.map_values(
        |c: char| c as u8,
    ) + "fmt "@.map_values(|c: char| c as u8) + le32_spec(16) + le16_spec(1) + le16_spec(1)
        + le32_spec(16000) + le32_spec(32000) + le16_spec(2) + le16_spec(16) + "data"@.map_values(
        |c: char| c as u8,
    ) + le32_spec(n * 2)
}

/// The sample payload: each sample's bit pattern, little-endian, in order.
pub open spec fn wav_data_spec(samples: Seq<i16>) -> Seq<u8>
    decreases samples.len(),
{
    if samples.len() == 0 {
        Seq::empty()
    } else {
        wav_data_spec(samples.drop_last()) + le16_spec(sample_bits_spec(samples.last()))
    }
}

/// A whole WAV file: header then payload.
pub open spec fn wav_bytes_spec(samples: Seq<i16>) -> Seq<u8> {
    wav_header_spec(samples.len() as int) + wav_data_spec(samples)
}

fn push_le16(out: &mut Vec<u8>, x: u16)
    ensures
        final(out)@ == old(out)@ + le16_spec(x as int),
{
    out.push((x % 256) as u8);
    out.push(((x / 256) % 256) as u8);
    proof {
        assert(out@ =~= old(out)@ + le16_spec(x as int));
    }
}

fn push_le32(out: &mut Vec<u8>, x: u32)
    ensures
        final(out)@ == old(out)@ + le32_spec(x as int),
{
    out.push((x % 256) as u8);
    out.push(((x / 256) % 256) as u8);
    out.push(((x / 65536) % 256) as u8);
    out.push(((x / 16777216) % 256) as u8);
    proof {
        assert(out@ =~= old(out)@ + le32_spec(x as int));
    }
}

/// Encode 16 kHz mono samples as a WAV file. The 32-bit size fields of the
/// format bound how much audio one file can carry.
pub fn encode_wav(samples: &Vec<i16>) -> (r: Vec<u8>)
    requires
        samples@.len() * 2 + 36 <= u32::MAX,
    ensures
        r@ == wav_bytes_spec(samples@),
{
    let n = samples.len();
    let data_size: u32 = (n as u32) * 2;
    let file_size: u32 = data_size + 36;
    let mut out: Vec<u8> = Vec::new();
    out.push(82u8);
    out.push(73u8);
    out.push(70u8);
    out.push(70u8);
    proof {
        reveal_strlit("RIFF");
        assert(out@ =~= "RIFF"@.map_values(|c: char| c as u8));
    }
    push_le32(&mut out, file_size);
    let ghost after_size = out@;
    out.push(87u8);
    out.push(65u8);
    out.push(86u8);
    out.push(69u8);
    proof {
        reveal_strlit("WAVE");
        assert(out@ =~= after_size + "WAVE"@.map_values(|c: char| c as u8));
    }
    let ghost after_wave = out@;
    out.push(102u8);
    out.push(109u8);
    out.push(116u8);
    out.push(32u8);
    proof {
        reveal_strlit("fmt ");
        assert(out@ =~= after_wave + "fmt "@.map_values(|c: char| c as u8));
    }
    push_le32(&mut out, 16);
    push_le16(&mut out, 1);
    push_le16(&mut out, 1);
    push_le32(&mut out, 16000);
    push_le32(&mut out, 32000);
    push_le16(&mut out, 2);
    push_le16(&mut out, 16);
    let ghost after_fmt = out@;
    out.push(100u8);
    out.push(97u8);
    out.push(116u8);
    out.push(97u8);
    proof {
        reveal_strlit("data");
        assert(out@ =~= after_fmt + "data"@.map_values(|c: char| c as u8));
    }
    push_le32(&mut out, data_size);
    proof {
        assert(out@ =~= wav_header_spec(n as int));
    }
    let ghost header = out@;
    let mut i: usize = 0;
    while i < n
        invariant
            0 <= i <= n,
            n == samples@.len(),
            out@ == header + wav_data_spec(samples@.take(i as int)),
        decreases n - i,
    {
        let s = samples[i];
        let bits: u16 = if s >= 0 {
            s as u16
        } else {
            ((s as i32) + 65536) as u16
        };
        proof {
            assert(bits as int == sample_bits_spec(samples@[i as int]));
        }
        push_le16(&mut out, bits);
        proof {
            assert(samples@.take(i + 1).drop_last() =~= samples@.take(i as int));
            assert(samples@.take(i + 1).last() == samples@[i as int]);
        }
        i += 1;
    }
    proof {
        assert(samples@.take(n as int) =~= samples@);
    }
    out
}

} // verus!
