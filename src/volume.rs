//! Audio-volume reader: decides the output volume from what the mixer's master
//! control reports per channel.
use vstd::prelude::*;
use crate::percentage::Percentage;

verus! {

/// What one playback channel of the master control reports.
#[derive(Clone, Copy, Debug, PartialEq, Eq, Structural)]
pub struct ChannelReading {
    /// The raw volume, where it could be read.
    pub volume: Option<i64>,
    /// The mute switch (`0` is muted), where it could be read.
    pub switch: Option<i32>,
}

/// Why the volume could not be decided.
#[derive(Clone, Copy, Debug, PartialEq, Eq, Structural)]
pub enum VolumeError {
    /// The first channel with a readable volume has an unreadable mute switch.
    SwitchUnreadable,
}

/// The volume as a fraction `(numer, denom)`: the first channel with a readable
/// volume decides; muted gives minus one percent, else `volume / max`, held with
/// a positive denominator (zero where `max` is zero); no readable channel gives zero.
pub open spec fn volume_outcome(max: i64, cs: Seq<ChannelReading>) -> Result<(int, int), VolumeError>
    decreases cs.len(),
{
    if cs.len() == 0 {
        Ok((0, 1))
    } else {
        match cs[0].volume {
            None => volume_outcome(max, cs.drop_first()),
            Some(v) => match cs[0].switch {
                None => Err(VolumeError::SwitchUnreadable),
                Some(s) => if s == 0 {
                    Ok((-1, 100))
                } else if max > 0 {
                    Ok((v as int, max as int))
                } else if max < 0 {
                    Ok((-v, -max))
                } else {
                    Ok((0, 1))
                },
            },
        }
    }
}

/// Whether `r` is the result that `volume_outcome` describes.
pub open spec fn is_volume_result(
    r: Result<Percentage, VolumeError>,
    max: i64,
    cs: Seq<ChannelReading>,
) -> bool {
    match r {
        Ok(p) => p.wf() && volume_outcome(max, cs) == Ok::<(int, int), VolumeError>(
            (p.numer_spec(), p.denom_spec()),
        ),
        Err(e) => volume_outcome(max, cs) == Err::<(int, int), VolumeError>(e),
    }
}

/// The output volume, from the upper end `max` of the volume range and the
/// channels in the mixer's order.
pub fn volume_from_channels(max: i64, channels: &Vec<ChannelReading>) -> (r: Result<Percentage, VolumeError>)
    ensures
        is_volume_result(r, max, channels@),
{
    let mut k: usize = 0;
    assert(channels@.subrange(0, channels@.len() as int) =~= channels@);
    while k < channels.len()
        invariant
            k <= channels.len(),
            volume_outcome(max, channels@) == volume_outcome(max, channels@.subrange(k as int, channels@.len() as int)),
        decreases channels.len() - k,
    {
        let c = channels[k];
        let ghost rest = channels@.subrange(k as int, channels@.len() as int);
        assert(rest[0] == c);
        assert(rest.drop_first() =~= channels@.subrange(k + 1, channels@.len() as int));
        match c.volume {
            None => {},
            Some(v) => {
                return match c.switch {
                    None => Err(VolumeError::SwitchUnreadable),
                    Some(s) => if s == 0 {
                        Ok(Percentage::muted())
                    } else if max > 0 {
                        Ok(Percentage::new(v as i128, max as u64))
                    } else if max < 0 {
                        Ok(Percentage::new(-(v as i128), (-(max as i128)) as u64))
                    } else {
                        Ok(Percentage::zero())
                    },
                };
            },
        }
        k = k + 1;
    }
    Ok(Percentage::zero())
}

/// A muted channel gives the mute marker whatever its raw volume.
pub proof fn lemma_muted_ignores_level(max: i64, c: ChannelReading, rest: Seq<ChannelReading>)
    requires
        c.volume is Some,
        c.switch == Some(0i32),
    ensures
        volume_outcome(max, seq![c] + rest) == Ok::<(int, int), VolumeError>((-1, 100)),
{
    assert((seq![c] + rest)[0] == c);
}

} // verus!
