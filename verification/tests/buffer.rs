use num_complex::Complex32;
use uhd_usrp::{ArrayBuffer, SampleBuffer};

fn check_fill(mut a: ArrayBuffer<i16>) {
    a.iter_samples_mut()
        .into_iter()
        .enumerate()
        .for_each(|(i, s)| *s = i as i16);
    let channels = a.channels();
    let samples = a.samples();
    for i in 0..(channels * samples) {
        assert_eq!(a[i / samples][i % samples], i as i16);
    }
}

fn check_values(a: ArrayBuffer<i16>, s: impl Iterator<Item = i16>) {
    assert!(a.iter_samples().into_iter().zip(s).all(|(s1, s2)| *s1 == s2));
}

#[test]
fn buffer_test_creation() {
    check_fill(ArrayBuffer::new(3, 10));
    check_values(ArrayBuffer::<i16>::from_iter(5, 0..100), 0..100);
    check_values(ArrayBuffer::from_vec(5, (0..100).collect()), 0..100);
}

#[test]
fn buffer_test_shape() {
    let buff: ArrayBuffer<Complex32> = ArrayBuffer::new(10, 13);
    assert_eq!(buff.channels(), 10);
    assert_eq!(buff.samples(), 13);
    assert_eq!(buff.iter().len(), 10);
    assert!(buff.iter().into_iter().all(|c| c.len() == 13))
}

#[test]
fn test_iter() {
    const CHANNELS: usize = 10;
    const SAMPLES: usize = 13;

    let mut buff: ArrayBuffer<i16> = ArrayBuffer::new(CHANNELS, SAMPLES);
    buff.iter_samples_mut()
        .into_iter()
        .enumerate()
        .for_each(|(i, s)| *s = i as i16);
    check_values(buff, 0..(CHANNELS as i16 * SAMPLES as i16));
}

#[test]
fn buffer_test_clone() {
    let buff: ArrayBuffer<i16> = ArrayBuffer::from_iter(5, 0..100);
    let clone = buff.clone();
    assert_eq!(buff, clone);
}

#[test]
fn from_nested_vec_keeps_each_channel() {
    let buff = ArrayBuffer::from_nested_vec(vec![vec![1i16, 2, 3], vec![4, 5, 6]]);
    assert_eq!(buff.channels(), 2);
    assert_eq!(buff.samples(), 3);
    assert_eq!(buff.get(0).unwrap(), &[1, 2, 3]);
    assert_eq!(buff.get(1).unwrap(), &[4, 5, 6]);
    assert!(buff.get(2).is_none());
    assert_eq!(buff.to_nested_vec(), vec![vec![1, 2, 3], vec![4, 5, 6]]);
    assert_eq!(buff.into_nested_vec(), vec![vec![1, 2, 3], vec![4, 5, 6]]);
}

#[test]
fn from_nested_iter_collects_each_channel() {
    let rows = vec![vec![7i16, 8], vec![9, 10], vec![11, 12]];
    let buff = ArrayBuffer::from_nested_iter(rows.clone().into_iter().map(|r| r.into_iter()));
    assert_eq!(buff.channels(), 3);
    assert_eq!(buff.samples(), 2);
    assert_eq!(buff.to_nested_vec(), rows);
}

#[test]
fn fill_sets_every_sample() {
    let mut buff: ArrayBuffer<i16> = ArrayBuffer::new(3, 4);
    buff.fill(7);
    assert_eq!(buff.to_flat_vec(), vec![7i16; 12]);
    assert_eq!(buff.channels(), 3);
    assert_eq!(buff.samples(), 4);
}

#[test]
fn fill_channel_leaves_the_others() {
    let mut buff: ArrayBuffer<i16> = ArrayBuffer::with_fill(3, 2, 1);
    buff.fill_channel(1, 9);
    assert_eq!(buff.to_nested_vec(), vec![vec![1, 1], vec![9, 9], vec![1, 1]]);
}

#[test]
fn sample_mut_past_the_end_is_none() {
    let mut buff: ArrayBuffer<i16> = ArrayBuffer::new(2, 3);
    assert!(buff.sample_mut(5).is_some());
    assert!(buff.sample_mut(6).is_none());
    let mut empty: ArrayBuffer<i16> = ArrayBuffer::new(4, 0);
    assert!(empty.sample_mut(0).is_none());
}

#[test]
fn sample_mut_changes_one_sample() {
    let mut buff = ArrayBuffer::from_vec(2, vec![0i16, 1, 2, 3, 4, 5]);
    *buff.sample_mut(4).unwrap() = 40;
    assert_eq!(buff.to_nested_vec(), vec![vec![0, 1, 2], vec![3, 40, 5]]);
}

#[test]
fn iter_samples_mut_reaches_every_sample_in_order() {
    let mut buff = ArrayBuffer::from_vec(3, vec![0i16, 1, 2, 3, 4, 5]);
    {
        let all = buff.iter_samples_mut();
        assert_eq!(all.len(), 6);
        for (i, s) in all.into_iter().enumerate() {
            assert_eq!(*s, i as i16);
            *s = 10 * (i as i16);
        }
    }
    assert_eq!(buff.channels(), 3);
    assert_eq!(buff.samples(), 2);
    assert_eq!(buff.to_nested_vec(), vec![vec![0, 10], vec![20, 30], vec![40, 50]]);
    let mut none: ArrayBuffer<i16> = ArrayBuffer::new(3, 0);
    assert!(none.iter_samples_mut().is_empty());
    let mut no_channels: ArrayBuffer<i16> = ArrayBuffer::new(0, 5);
    assert!(no_channels.iter_samples_mut().is_empty());
}

#[test]
fn flat_list_that_cannot_be_cut_is_refused() {
    assert!(ArrayBuffer::try_from_vec_samples(0, vec![1i16, 2]).is_none());
    assert!(ArrayBuffer::try_from_vec_samples(0, Vec::<i16>::new()).is_none());
    assert!(ArrayBuffer::try_from_vec_samples(2, vec![1i16, 2, 3]).is_none());
    assert!(ArrayBuffer::try_from_vec_samples(4, vec![1i16, 2, 3]).is_none());
    let buff = ArrayBuffer::try_from_vec_samples(2, vec![1i16, 2, 3, 4]).unwrap();
    assert_eq!(buff.to_nested_vec(), vec![vec![1, 2], vec![3, 4]]);
    let empty = ArrayBuffer::try_from_vec_samples(3, Vec::<i16>::new()).unwrap();
    assert_eq!((empty.channels(), empty.samples()), (3, 0));
}

#[test]
fn channels_of_unequal_length_are_refused() {
    assert!(ArrayBuffer::try_from_vec_channels(vec![vec![1i16, 2], vec![3]]).is_none());
    assert!(ArrayBuffer::try_from_vec_channels(vec![vec![], vec![3i16]]).is_none());
    assert!(ArrayBuffer::try_from_vec_channels(vec![vec![1i16], vec![2], vec![3, 4]]).is_none());
    let buff = ArrayBuffer::try_from_vec_channels(vec![vec![1i16, 2], vec![3, 4]]).unwrap();
    assert_eq!((buff.channels(), buff.samples()), (2, 2));
    let none = ArrayBuffer::try_from_vec_channels(Vec::<Vec<i16>>::new()).unwrap();
    assert_eq!((none.channels(), none.samples()), (0, 0));
    let one = ArrayBuffer::try_from_vec_channels(vec![vec![5i16; 3]]).unwrap();
    assert_eq!((one.channels(), one.samples()), (1, 3));
}

#[test]
fn get_mut_and_iter_mut_reach_the_samples() {
    let mut buff = ArrayBuffer::from_vec(2, vec![1i16, 2, 3, 4]);
    {
        let mut row = buff.get_mut(0).unwrap();
        *row[0] = 10;
    }
    assert!(buff.get_mut(2).is_none());
    {
        let mut rows = buff.iter_mut();
        *rows[1][1] = 40;
    }
    assert_eq!(buff.to_nested_vec(), vec![vec![10, 2], vec![3, 40]]);
}
