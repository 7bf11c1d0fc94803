//! Repair of the WAV files that the speech provider returns: it leaves the
//! size of the data chunk open, which some readers refuse.

use vstd::prelude::*;

verus! {

/// The length of a canonical WAV header; the size of the data chunk is its
/// last four bytes.
pub const HEADER_LEN: usize = 44;

/// Where the size of the data chunk begins.
pub const SIZE_AT: usize = 40;

/// The audio cannot be a WAV file.
#[derive(Clone, Copy, Debug, PartialEq, Eq, Structural)]
pub enum AudioError {
    /// It is shorter than a WAV header.
    TooShort,
}

/// Whether the header leaves the size of the data chunk open, that is,
/// gives it as minus one.
pub open spec fn size_is_open(sound: Seq<u8>) -> bool {
    &&& sound.len() >= HEADER_LEN
    &&& forall|k: int| SIZE_AT <= k < HEADER_LEN ==> sound[k] == 0xff
}

/// Byte `k` of the 32-bit little-endian form of `value`.
pub open spec fn le_byte(value: nat, k: nat) -> u8 {
    if k == 0 {
        (value % 256) as u8
    } else if k == 1 {
        (value / 256 % 256) as u8
    } else if k == 2 {
        (value / 65536 % 256) as u8
    } else {
        (value / 16777216 % 256) as u8
    }
}

/// The file with the size of the data chunk filled in, where the header
/// left it open: the number of bytes after the header, as 32 bits in
/// little-endian order.
pub open spec fn repaired(sound: Seq<u8>) -> Seq<u8> {
    if size_is_open(sound) {
        Seq::new(
            sound.len(),
            |k: int|
                if SIZE_AT <= k < HEADER_LEN {
                    le_byte((sound.len() - HEADER_LEN) as nat, (k - SIZE_AT) as nat)
                } else {
                    sound[k]
                },
        )
    } else {
        sound
    }
}

/// Fills in the size of the data chunk where the header gives it as minus
/// one, and leaves every other file as it is. Fails, without touching the
/// audio, where it is shorter than a WAV header.
pub fn repair_wav_header(sound: &mut Vec<u8>) -> (result: Result<(), AudioError>)
    ensures
        result is Err <==> old(sound)@.len() < HEADER_LEN,
        result is Err ==> final(sound)@ == old(sound)@,
        result is Ok ==> final(sound)@ == repaired(old(sound)@),
{
    if sound.len() < HEADER_LEN {
        return Err(AudioError::TooShort);
    }
    if sound[40] == 0xff && sound[41] == 0xff && sound[42] == 0xff && sound[43] == 0xff {
        let length: usize = sound.len() - HEADER_LEN;
        let b0: u8 = (length % 256) as u8;
        let b1: u8 = ((length / 256) % 256) as u8;
        let b2: u8 = ((length / 65536) % 256) as u8;
        let b3: u8 = ((length / 16777216) % 256) as u8;
        sound.set(40, b0);
        sound.set(41, b1);
        sound.set(42, b2);
        sound.set(43, b3);
        proof {
            assert(size_is_open(old(sound)@));
            assert(sound@ =~= repaired(old(sound)@));
        }
    } else {
        assert(!size_is_open(old(sound)@));
    }
    Ok(())
}

} // verus!
