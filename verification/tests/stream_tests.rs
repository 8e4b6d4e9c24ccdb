use std::cell::RefCell;

use dropbox_sdk::stream::{ByteReader, ChunkReader, ChunkSource, ReaderChunks, CHUNK_LIMIT};

/// A source that hands out a fixed script of chunks, then end of stream.
struct ScriptedSource {
    chunks: RefCell<Vec<Vec<u8>>>,
}

impl ScriptedSource {
    fn new(chunks: Vec<Vec<u8>>) -> Self {
        ScriptedSource { chunks: RefCell::new(chunks) }
    }
}

impl ChunkSource for ScriptedSource {
    fn next_chunk(&mut self) -> Result<Vec<u8>, String> {
        let mut chunks = self.chunks.borrow_mut();
        if chunks.is_empty() {
            Ok(Vec::new())
        } else {
            Ok(chunks.remove(0))
        }
    }
}

struct FailingSource;

impl ChunkSource for FailingSource {
    fn next_chunk(&mut self) -> Result<Vec<u8>, String> {
        Err("broken pipe".to_owned())
    }
}

#[test]
fn chunks_of_3_5_0_read_with_buffer_4_yield_4_4_0() {
    let source = ScriptedSource::new(vec![vec![1, 2, 3], vec![4, 5, 6, 7, 8], Vec::new()]);
    let mut reader = ChunkReader::new(source);
    let first = reader.read(4).unwrap();
    assert_eq!(vec![1, 2, 3, 4], first);
    let second = reader.read(4).unwrap();
    assert_eq!(vec![5, 6, 7, 8], second);
    let third = reader.read(4).unwrap();
    assert_eq!(Vec::<u8>::new(), third);
    // End of stream stays end of stream.
    assert_eq!(Vec::<u8>::new(), reader.read(4).unwrap());
}

#[test]
fn read_drains_the_buffer_before_polling() {
    let source = ScriptedSource::new(vec![vec![9, 8, 7, 6, 5], Vec::new()]);
    let mut reader = ChunkReader::new(source);
    assert_eq!(vec![9, 8], reader.read(2).unwrap());
    assert_eq!(vec![7], reader.read(1).unwrap());
    assert_eq!(vec![6, 5], reader.read(10).unwrap());
    assert_eq!(Vec::<u8>::new(), reader.read(3).unwrap());
}

#[test]
fn a_failing_source_surfaces_when_nothing_is_buffered() {
    let mut reader = ChunkReader::new(FailingSource);
    assert_eq!(Err("broken pipe".to_owned()), reader.read(4));
}

/// A reader that hands out a fixed byte run in bounded pieces.
struct ScriptedReader {
    data: Vec<u8>,
    at: usize,
    piece: usize,
}

impl ByteReader for ScriptedReader {
    fn read_at_most(&mut self, max: usize) -> Result<Vec<u8>, String> {
        let n = self.piece.min(max).min(self.data.len() - self.at);
        let out = self.data[self.at..self.at + n].to_vec();
        self.at += n;
        Ok(out)
    }
}

#[test]
fn reader_chunks_polls_one_bounded_read_per_chunk() {
    let reader = ScriptedReader { data: (0..10).collect(), at: 0, piece: 4 };
    let mut chunks = ReaderChunks::new(reader);
    assert_eq!(vec![0, 1, 2, 3], chunks.next_chunk().unwrap());
    assert_eq!(vec![4, 5, 6, 7], chunks.next_chunk().unwrap());
    assert_eq!(vec![8, 9], chunks.next_chunk().unwrap());
    assert_eq!(Vec::<u8>::new(), chunks.next_chunk().unwrap());
    // After end of stream the reader is not polled again.
    assert_eq!(Vec::<u8>::new(), chunks.next_chunk().unwrap());
}

/// A misbehaving reader that ignores the requested bound and hands back
/// everything at once.
struct GreedyReader {
    data: Vec<u8>,
    spent: bool,
}

impl ByteReader for GreedyReader {
    fn read_at_most(&mut self, _max: usize) -> Result<Vec<u8>, String> {
        if self.spent {
            Ok(Vec::new())
        } else {
            self.spent = true;
            Ok(std::mem::take(&mut self.data))
        }
    }
}

#[test]
fn reader_chunks_stay_within_the_bound_and_lose_nothing() {
    let data: Vec<u8> = (0..(CHUNK_LIMIT + 5)).map(|i| (i % 251) as u8).collect();
    let reader = GreedyReader { data: data.clone(), spent: false };
    let mut chunks = ReaderChunks::new(reader);
    let first = chunks.next_chunk().unwrap();
    assert_eq!(CHUNK_LIMIT, first.len());
    let second = chunks.next_chunk().unwrap();
    assert_eq!(5, second.len());
    let mut all = first;
    all.extend(second);
    assert_eq!(data, all);
    assert_eq!(0, chunks.next_chunk().unwrap().len());
}
