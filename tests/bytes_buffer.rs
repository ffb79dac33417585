use std::cmp::Ordering;
use std::io::{BufRead, BufReader, Read};

use vex::buffer::Buffer;

#[test]
fn buffer_from_string_iter() {
    let input = String::from("hello world.\n\nthis is a new line");
    let buffer = Buffer::from_iter(input.bytes().collect());

    assert_eq!(32, buffer.len());

    let contents: Vec<u8> = buffer.iter();
    let output = String::from_utf8(contents).unwrap();

    assert_eq!(Ordering::Equal, String::cmp(&input, &output));
}

#[test]
fn buffer_as_reader() {
    let input = String::from("hello world.\n\nthis is a new line");
    let buffer = Buffer::from_iter(input.bytes().collect());

    let r = buffer.as_read();
    let br = BufReader::new(r);

    let strings: Vec<String> = br.lines().flat_map(|c| c).collect();
    for line in strings {
        println!("{:?}", line);
    }

    let r = buffer.as_read_from(14);
    let br = BufReader::new(r);

    let strings: Vec<String> = br.lines().flat_map(|c| c).collect();
    assert_eq!(strings.get(0).unwrap(), "this is a new line");
}

#[test]
fn buffer_insert_chars() {
    let input = String::from("hello world.\n\nthis is a new line");
    let mut buffer = Buffer::from_iter(input.bytes().collect());

    assert_eq!(32, buffer.len());
    buffer.insert('東');
    buffer.insert(' ');
    assert_eq!(36, buffer.len());

    let r = buffer.as_read();
    let br = BufReader::new(r);

    let strings: Vec<String> = br.lines().flat_map(|c| c).collect();

    assert_eq!(strings.get(0).unwrap(), "東 hello world.");
}

#[test]
fn empty_buffer_has_no_bytes() {
    let buffer = Buffer::new();
    assert_eq!(0, buffer.len());
    assert!(buffer.iter().is_empty());
}

#[test]
fn insert_into_empty_buffer_encodes_utf8() {
    let mut buffer = Buffer::new();
    buffer.insert('é');
    buffer.insert('a');
    assert_eq!(buffer.iter(), vec![0xc3, 0xa9, b'a']);
}

#[test]
fn reader_reads_in_pieces() {
    let buffer = Buffer::from_iter(b"abcdef".to_vec());
    let mut r = buffer.as_read_from(1);
    let mut out = [0u8; 3];
    assert_eq!(r.read(&mut out).unwrap(), 3);
    assert_eq!(&out, b"bcd");
    assert_eq!(r.read(&mut out).unwrap(), 2);
    assert_eq!(&out[..2], b"ef");
    assert_eq!(r.read(&mut out).unwrap(), 0);
}

#[test]
fn reader_past_the_end_reads_nothing() {
    let buffer = Buffer::from_iter(b"ab".to_vec());
    let mut r = buffer.as_read_from(5);
    let mut out = [7u8; 2];
    assert_eq!(r.read(&mut out).unwrap(), 0);
    assert_eq!(out, [7u8, 7u8]);
}
