use paging_core::dsp::{downmix_mono, frames_from_raw, simple_resample};

#[test]
fn polycom_transmit_test_simple_resample() {
    let samples: Vec<i16> = vec![0, 100, 200, 300, 400, 500, 600, 700];

    // Downsample 2:1
    let resampled = simple_resample(&samples, 16000, 8000);
    assert_eq!(resampled.len(), 4);

    // Upsample 1:2
    let resampled = simple_resample(&samples, 8000, 16000);
    assert_eq!(resampled.len(), 16);
}

#[test]
fn transmit_test_simple_resample() {
    let samples: Vec<i16> = vec![0, 100, 200, 300, 400, 500, 600, 700];

    // Downsample 2:1
    let resampled = simple_resample(&samples, 16000, 8000);
    assert_eq!(resampled.len(), 4);

    // Upsample 1:2
    let resampled = simple_resample(&samples, 8000, 16000);
    assert_eq!(resampled.len(), 16);
}

#[test]
fn test_resample_identity() {
    let samples: Vec<i16> = vec![5, -7, 1000, -32768, 32767, 0];
    let resampled = simple_resample(&samples, 8000, 8000);
    assert_eq!(resampled, samples);
}

#[test]
fn test_resample_interpolates() {
    // Upsampling by 2 places the mean of each neighbour pair between them.
    let samples: Vec<i16> = vec![0, 100];
    let resampled = simple_resample(&samples, 8000, 16000);
    assert_eq!(resampled, vec![0, 50, 100, 100]);
}

#[test]
fn test_downmix_mono_means() {
    let stereo: Vec<i16> = vec![10, 20, -10, -30, 7, 8];
    let mono = downmix_mono(&stereo, 2);
    assert_eq!(mono, vec![15, -20, 7]);
}

#[test]
fn test_downmix_truncates_toward_zero() {
    let stereo: Vec<i16> = vec![-1, -2];
    let mono = downmix_mono(&stereo, 2);
    assert_eq!(mono, vec![-1]);
}

#[test]
fn test_frames_from_raw_pads_last() {
    let data: Vec<u8> = (0u8..5).collect();
    let frames = frames_from_raw(&data, 4);
    assert_eq!(frames.len(), 2);
    assert_eq!(frames[0], vec![0, 1, 2, 3]);
    assert_eq!(frames[1], vec![4, 0, 0, 0]);
}
