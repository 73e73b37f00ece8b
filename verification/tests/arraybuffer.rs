use num_complex::Complex32;
use uhd_usrp::{ArrayBuffer, EmptyBuf, Sample, SampleBuffer};

fn check_fill(mut a: ArrayBuffer<i16>) {
    a.iter_samples_mut()
        .into_iter()
        .enumerate()
        .for_each(|(i, s)| *s = i as i16);
    let channels = a.channels();
    let samples = a.samples();
    for i in 0..(channels * samples) {
        assert_eq!(a[i / samples][i % samples], i as i16);
    }
}

fn check_values(a: ArrayBuffer<i16>, s: impl Iterator<Item = i16>) {
    assert!(a.iter_samples().into_iter().zip(s).all(|(s1, s2)| *s1 == s2));
}

#[test]
fn arraybuffer_test_creation() {
    check_fill(ArrayBuffer::new(3, 10));
    check_values(ArrayBuffer::<i16>::from_iter_samples(5, 0..100), 0..100);
    check_values(ArrayBuffer::from_vec_samples(5, (0..100).collect()), 0..100);
}

#[test]
fn arraybuffer_test_shape() {
    let buff: ArrayBuffer<Complex32> = ArrayBuffer::new(10, 13);
    assert_eq!(buff.channels(), 10);
    assert_eq!(buff.samples(), 13);
    assert_eq!(buff.iter_channels().len(), 10);
    assert!(buff.iter_channels().into_iter().all(|c| c.len() == 13))
}

#[test]
fn test_iter_samples() {
    const CHANNELS: usize = 10;
    const SAMPLES: usize = 13;

    let mut buff: ArrayBuffer<i16> = ArrayBuffer::new(CHANNELS, SAMPLES);
    buff.iter_samples_mut()
        .into_iter()
        .enumerate()
        .for_each(|(i, s)| *s = i as i16);
    check_values(buff, 0..(CHANNELS as i16 * SAMPLES as i16));
}

#[test]
fn test_iter_channels() {
    const CHANNELS: usize = 10;

    let mut buff: ArrayBuffer<i16> = ArrayBuffer::from_iter_samples(CHANNELS, 0..100);
    buff.iter_channels_mut()
        .into_iter()
        .enumerate()
        .for_each(|(i, mut s)| *s[0] = i as i16);
    for (i, chan) in buff.iter_channels().into_iter().enumerate() {
        assert_eq!(chan[0], i as i16);
    }
}

#[test]
fn arraybuffer_test_clone() {
    let buff: ArrayBuffer<i16> = ArrayBuffer::from_iter_samples(5, 0..100);
    let clone = buff.clone();
    assert_eq!(buff, clone);
}

#[test]
fn test_to_vec() {
    let v0: Vec<i16> = Vec::from_iter(0..100);
    let v1 = ArrayBuffer::from_iter_samples(10, v0.iter().map(Clone::clone)).to_vec();
    let v2 = ArrayBuffer::from_iter_samples(10, v0.iter().map(Clone::clone)).into_vec();
    let v3 = ArrayBuffer::from_iter_samples(10, v0.iter().map(Clone::clone)).to_flat_vec();
    assert_eq!(
        v0,
        v1.iter().flatten().map(|c| c.clone()).collect::<Vec<_>>()
    );
    assert_eq!(
        v0,
        v2.iter().flatten().map(|c| c.clone()).collect::<Vec<_>>()
    );
    assert_eq!(v0, v3);
}

fn takes_samplebuff<S: Sample>(_buff: &impl SampleBuffer<S>) {}
fn takes_mut_samplebuff<S: Sample>(_buff: &mut impl SampleBuffer<S>) {}

#[test]
fn test_blah() {
    let mut v = vec![0i16; 10];
    takes_samplebuff(&v);
    takes_mut_samplebuff(&mut v);
}

#[test]
fn shape_reads_back_for_each_constructor() {
    for (channels, samples) in [(1usize, 0usize), (1, 1), (2, 5), (7, 3), (0, 4)] {
        let a: ArrayBuffer<i16> = ArrayBuffer::new(channels, samples);
        assert_eq!((a.channels(), a.samples()), (channels, samples));
        let b: ArrayBuffer<i16> = ArrayBuffer::with_fill(channels, samples, -3);
        assert_eq!((b.channels(), b.samples()), (channels, samples));
        assert!(b.iter_samples().into_iter().all(|s| *s == -3));
        assert_eq!(b.iter_samples().len(), channels * samples);
    }
}

#[test]
fn flat_samples_are_cut_in_channel_order() {
    let flat: Vec<i16> = (0..12).collect();
    let buff = ArrayBuffer::from_vec_samples(3, flat.clone());
    assert_eq!(buff.samples(), 4);
    for c in 0..3 {
        assert_eq!(buff.channel(c).unwrap(), &flat[c * 4..(c + 1) * 4]);
    }
    assert!(buff.channel(3).is_none());
}

#[test]
fn flat_copy_splits_back_into_the_same_channels() {
    let shapes: Vec<Vec<Vec<i16>>> = vec![
        vec![vec![1, 2, 3, 4, 5]],
        vec![vec![], vec![], vec![]],
        vec![vec![1, 2], vec![3, 4], vec![5, 6]],
        vec![vec![9], vec![8]],
    ];
    for nested in shapes {
        let channels = nested.len();
        let buff = ArrayBuffer::from_vec_channels(nested.clone());
        let flat = buff.to_flat_vec();
        let again = ArrayBuffer::from_vec_samples(channels, flat);
        assert_eq!(again.to_vec(), nested);
        assert_eq!(again, buff);
    }
}

#[test]
fn buffers_of_different_shape_differ() {
    let a: ArrayBuffer<i16> = ArrayBuffer::new(2, 3);
    let b: ArrayBuffer<i16> = ArrayBuffer::new(3, 2);
    let c: ArrayBuffer<i16> = ArrayBuffer::new(0, 3);
    let d: ArrayBuffer<i16> = ArrayBuffer::new(0, 2);
    assert_ne!(a, b);
    assert_ne!(c, d);
    let mut e: ArrayBuffer<i16> = ArrayBuffer::new(2, 3);
    assert_eq!(a, e);
    *e.sample_mut(5).unwrap() = 1;
    assert_ne!(a, e);
}

#[test]
fn a_vector_is_one_channel() {
    let v = vec![0i16; 10];
    assert_eq!(SampleBuffer::<i16>::channels(&v), 1);
    assert_eq!(SampleBuffer::<i16>::samples(&v), 10);
}

#[test]
fn a_slice_is_one_channel() {
    let v = [0i16; 7];
    assert_eq!(SampleBuffer::<i16>::channels(&v[..]), 1);
    assert_eq!(SampleBuffer::<i16>::samples(&v[..3]), 3);
}

#[test]
fn the_empty_buffer_has_no_channels() {
    assert_eq!(SampleBuffer::<i16>::channels(&EmptyBuf), 0);
    assert_eq!(SampleBuffer::<i16>::samples(&EmptyBuf), 0);
}

#[test]
fn from_iter_channels_collects_each_channel() {
    let rows = vec![vec![1i16, 2, 3], vec![4, 5, 6]];
    let buff = ArrayBuffer::from_iter_channels(rows.clone().into_iter().map(|r| r.into_iter()));
    assert_eq!((buff.channels(), buff.samples()), (2, 3));
    assert_eq!(buff.to_vec(), rows);
    let none: Vec<Vec<i16>> = Vec::new();
    let buff = ArrayBuffer::from_iter_channels(none.into_iter().map(|r| r.into_iter()));
    assert_eq!((buff.channels(), buff.samples()), (0, 0));
}

#[test]
fn channel_mut_reaches_one_channel() {
    let mut buff = ArrayBuffer::from_vec_samples(3, vec![0i16, 1, 2, 3, 4, 5]);
    {
        let mut row = buff.channel_mut(1).unwrap();
        assert_eq!(row.len(), 2);
        assert_eq!((*row[0], *row[1]), (2, 3));
        *row[1] = 30;
    }
    assert_eq!(buff.to_vec(), vec![vec![0, 1], vec![2, 30], vec![4, 5]]);
    assert!(buff.channel_mut(3).is_none());
    assert_eq!((buff.channels(), buff.samples()), (3, 2));
}

#[test]
fn iter_channels_mut_reaches_every_channel() {
    let mut buff = ArrayBuffer::from_vec_samples(2, vec![0i16, 1, 2, 3, 4, 5]);
    {
        let rows = buff.iter_channels_mut();
        assert_eq!(rows.len(), 2);
        for (c, row) in rows.into_iter().enumerate() {
            assert_eq!(row.len(), 3);
            for (s, sample) in row.into_iter().enumerate() {
                assert_eq!(*sample, (c * 3 + s) as i16);
                *sample = -(*sample);
            }
        }
    }
    assert_eq!(buff.to_vec(), vec![vec![0, -1, -2], vec![-3, -4, -5]]);
    let mut none: ArrayBuffer<i16> = ArrayBuffer::new(0, 3);
    assert!(none.iter_channels_mut().is_empty());
}
