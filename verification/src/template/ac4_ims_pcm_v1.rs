//! `ac4_ims_pcm_v1`: PCM WAV (one 5.1 file or six mono stems) to AC-4 IMS.
use vstd::prelude::*;

use crate::media::InputMediaInfo;
use crate::text::{nat_digits, owned, u64_text};

verus! {

/// The template.
pub struct Ac4ImsPcmV1;

/// Template id.
pub const ID: &'static str = "ac4_ims_pcm_v1";

/// The first probed stem that is not mono, by channel count and path.
pub open spec fn first_not_mono(media: Seq<InputMediaInfo>) -> Option<(u16, Seq<char>)>
    decreases media.len(),
{
    if media.len() == 0 {
        None
    } else if media[0].channels != 1 {
        Some((media[0].channels, media[0].path@))
    } else {
        first_not_mono(media.drop_first())
    }
}

/// Outcome of the run-time check: a single 5.1 WAV, or six mono stems.
pub open spec fn ac4pcm_runtime_outcome(media: Seq<InputMediaInfo>, names: nat) -> Result<(), Seq<char>> {
    if media.len() == 1 {
        if media[0].channels != 6 {
            Err("template_id 'ac4_ims_pcm_v1' requires inputs.wav to be a single 5.1 WAV; got "@
                + nat_digits(media[0].channels as nat) + " channels"@)
        } else {
            Ok(())
        }
    } else if names != 6 {
        Err("template_id 'ac4_ims_pcm_v1' requires inputs.wav_list to contain 6 mono WAV stems; got "@
            + nat_digits(names))
    } else {
        match first_not_mono(media) {
            Some((c, p)) => Err(
                "template_id 'ac4_ims_pcm_v1' requires inputs.wav_list entries to be mono WAV stems; got "@
                    + nat_digits(c as nat) + " channels for "@ + p,
            ),
            None => Ok(()),
        }
    }
}

impl Ac4ImsPcmV1 {
    /// Checks the probed inputs: a single 5.1 WAV, or six mono stems.
    pub fn validate_runtime_compatibility(
        &self,
        input_media: &Vec<InputMediaInfo>,
        input_file_names: &Vec<String>,
    ) -> (r: Result<(), String>)
        ensures
            crate::schema::unit_model(r) == ac4pcm_runtime_outcome(input_media@, input_file_names@.len()),
    {
        if input_media.len() == 1 {
            let info = &input_media[0];
            if info.channels != 6 {
                let mut e = owned("template_id 'ac4_ims_pcm_v1' requires inputs.wav to be a single 5.1 WAV; got ");
                e.append(u64_text(info.channels as u64).as_str());
                e.append(" channels");
                return Err(e);
            }
            return Ok(());
        }
        if input_file_names.len() != 6 {
            let mut e = owned("template_id 'ac4_ims_pcm_v1' requires inputs.wav_list to contain 6 mono WAV stems; got ");
            e.append(u64_text(input_file_names.len() as u64).as_str());
            return Err(e);
        }
        let ghost m = input_media@;
        let mut i: usize = 0;
        assert(m.skip(0) == m);
        while i < input_media.len()
            invariant
                i <= input_media.len(),
                m == input_media@,
                m.len() != 1,
                input_file_names@.len() == 6,
                first_not_mono(m) == first_not_mono(m.skip(i as int)),
            decreases input_media.len() - i,
        {
            assert(m.skip(i as int)[0] == m[i as int]);
            if input_media[i].channels != 1 {
                let mut e = owned(
                    "template_id 'ac4_ims_pcm_v1' requires inputs.wav_list entries to be mono WAV stems; got ",
                );
                e.append(u64_text(input_media[i].channels as u64).as_str());
                e.append(" channels for ");
                e.append(input_media[i].path.as_str());
                return Err(e);
            }
            assert(m.skip(i as int).drop_first() == m.skip(i + 1));
            i += 1;
        }
        Ok(())
    }
}

} // verus!
