//! The embedding store's records: the stored document, the binary form of
//! its embedding, and the reading of rows back into documents. Opening the
//! database and running statements is the caller's business.
//!
//! An embedding is a sequence of single-precision numbers. Here each number
//! is held as the 32 bits of its IEEE 754 form, so that storing and reading
//! back is exact by construction.

use crate::error::StorageError;
use vstd::arithmetic::div_mod::lemma_fundamental_div_mod_converse;
use vstd::prelude::*;

verus! {

/// A document as the store returns it.
#[derive(Debug)]
pub struct StoredCommand {
    pub id: i64,
    pub package_name: String,
    pub command_name: String,
    pub man_content: String,
    /// The embedding, one IEEE 754 single-precision bit pattern per
    /// component.
    pub embedding: Vec<u32>,
}

/// `StoredCommand` as a mathematical value.
pub struct StoredCommandView {
    pub id: i64,
    pub package_name: Seq<char>,
    pub command_name: Seq<char>,
    pub man_content: Seq<char>,
    pub embedding: Seq<u32>,
}

impl View for StoredCommand {
    type V = StoredCommandView;

    open spec fn view(&self) -> StoredCommandView {
        StoredCommandView {
            id: self.id,
            package_name: self.package_name@,
            command_name: self.command_name@,
            man_content: self.man_content@,
            embedding: self.embedding@,
        }
    }
}

impl Clone for StoredCommand {
    fn clone(&self) -> (copy: Self)
        ensures
            copy@ == self@,
    {
        StoredCommand {
            id: self.id,
            package_name: self.package_name.clone(),
            command_name: self.command_name.clone(),
            man_content: self.man_content.clone(),
            embedding: self.embedding.clone(),
        }
    }
}

/// The views of `commands`, in order.
pub open spec fn command_views(commands: Seq<StoredCommand>) -> Seq<StoredCommandView> {
    commands.map_values(|c: StoredCommand| c@)
}

/// A row of the store as it comes from the database, the embedding still in
/// its binary form.
#[derive(Debug)]
pub struct StoredRow {
    pub id: i64,
    pub package_name: String,
    pub command_name: String,
    pub man_content: String,
    pub embedding_blob: Vec<u8>,
}

/// Byte `k` of `word` in little-endian order.
pub open spec fn word_byte(word: u32, k: int) -> u8 {
    if k == 0 {
        (word % 256) as u8
    } else if k == 1 {
        (word / 256 % 256) as u8
    } else if k == 2 {
        (word / 65536 % 256) as u8
    } else {
        (word / 16777216) as u8
    }
}

/// The word whose little-endian bytes are `b0`, `b1`, `b2`, `b3`.
pub open spec fn word_of(b0: u8, b1: u8, b2: u8, b3: u8) -> u32 {
    (b0 + 256 * b1 + 65536 * b2 + 16777216 * b3) as u32
}

/// The stored form of an embedding: four little-endian bytes per component,
/// one component after another, with no length prefix.
pub open spec fn encoded(embedding: Seq<u32>) -> Seq<u8> {
    Seq::new(4 * embedding.len(), |i: int| word_byte(embedding[i / 4], i % 4))
}

/// A blob is the stored form of some embedding exactly if its length is a
/// multiple of four.
pub open spec fn is_embedding_blob(blob: Seq<u8>) -> bool {
    blob.len() % 4 == 0
}

/// The embedding that `blob` is the stored form of.
pub open spec fn decoded(blob: Seq<u8>) -> Seq<u32> {
    Seq::new(
        blob.len() / 4,
        |i: int| word_of(blob[4 * i], blob[4 * i + 1], blob[4 * i + 2], blob[4 * i + 3]),
    )
}

/// Writes an embedding in its stored form.
pub fn encode_embedding(embedding: &[u32]) -> (blob: Vec<u8>)
    ensures
        blob@ == encoded(embedding@),
{
    let mut blob: Vec<u8> = Vec::new();
    let mut i: usize = 0;
    while i < embedding.len()
        invariant
            i <= embedding.len(),
            blob@.len() == 4 * i,
            forall|j: int| 0 <= j < 4 * i ==> blob@[j] == word_byte(embedding@[j / 4], j % 4),
        decreases embedding.len() - i,
    {
        let word = embedding[i];
        blob.push((word % 256) as u8);
        blob.push((word / 256 % 256) as u8);
        blob.push((word / 65536 % 256) as u8);
        blob.push((word / 16777216) as u8);
        i = i + 1;
    }
    blob
}

/// Reads an embedding from its stored form. A blob whose length is not a
/// multiple of four is corrupt.
pub fn decode_embedding(blob: &[u8]) -> (result: Result<Vec<u32>, StorageError>)
    ensures
        match result {
            Ok(embedding) => is_embedding_blob(blob@) && embedding@ == decoded(blob@),
            Err(error) => !is_embedding_blob(blob@) && error == StorageError::CorruptEmbedding,
        },
{
    if blob.len() % 4 != 0 {
        return Err(StorageError::CorruptEmbedding);
    }
    let length = blob.len();
    let count = length / 4;
    let mut embedding: Vec<u32> = Vec::new();
    let mut i: usize = 0;
    while i < count
        invariant
            i <= count,
            4 * count == length,
            length == blob@.len(),
            embedding@.len() == i,
            forall|j: int| 0 <= j < i ==> embedding@[j] == decoded(blob@)[j],
        decreases count - i,
    {
        let b0 = blob[4 * i] as u32;
        let b1 = blob[4 * i + 1] as u32;
        let b2 = blob[4 * i + 2] as u32;
        let b3 = blob[4 * i + 3] as u32;
        embedding.push(b0 + 256 * b1 + 65536 * b2 + 16777216 * b3);
        i = i + 1;
    }
    Ok(embedding)
}

/// The little-endian bytes of a word give that word back.
pub proof fn lemma_word_roundtrip(word: u32)
    ensures
        word_of(word_byte(word, 0), word_byte(word, 1), word_byte(word, 2), word_byte(word, 3))
            == word,
{
}

/// A word made of four bytes has those bytes, in order.
pub proof fn lemma_bytes_roundtrip(b0: u8, b1: u8, b2: u8, b3: u8)
    ensures
        word_byte(word_of(b0, b1, b2, b3), 0) == b0,
        word_byte(word_of(b0, b1, b2, b3), 1) == b1,
        word_byte(word_of(b0, b1, b2, b3), 2) == b2,
        word_byte(word_of(b0, b1, b2, b3), 3) == b3,
{
    let word = b0 + 256 * b1 + 65536 * b2 + 16777216 * b3;
    lemma_fundamental_div_mod_converse(word, 256, b1 + 256 * b2 + 65536 * b3, b0 as int);
    lemma_fundamental_div_mod_converse(b1 + 256 * b2 + 65536 * b3, 256, b2 + 256 * b3, b1 as int);
    lemma_fundamental_div_mod_converse(word, 65536, b2 + 256 * b3, b0 + 256 * b1);
    lemma_fundamental_div_mod_converse(b2 + 256 * b3, 256, b3 as int, b2 as int);
    lemma_fundamental_div_mod_converse(word, 16777216, b3 as int, b0 + 256 * b1 + 65536 * b2);
}

/// An embedding read back from its stored form is the embedding that was
/// written, bit for bit.
pub proof fn lemma_embedding_roundtrip(embedding: Seq<u32>)
    ensures
        encoded(embedding).len() == 4 * embedding.len(),
        is_embedding_blob(encoded(embedding)),
        decoded(encoded(embedding)) == embedding,
{
    let blob = encoded(embedding);
    assert forall|i: int| 0 <= i < embedding.len() implies decoded(blob)[i] == embedding[i] by {
        lemma_word_roundtrip(embedding[i]);
    }
}

/// Every blob whose length is a multiple of four is the stored form of the
/// embedding it decodes to, so no two embeddings share a stored form.
pub proof fn lemma_blob_roundtrip(blob: Seq<u8>)
    requires
        is_embedding_blob(blob),
    ensures
        encoded(decoded(blob)) == blob,
{
    let embedding = decoded(blob);
    assert forall|j: int| 0 <= j < blob.len() implies encoded(embedding)[j] == blob[j] by {
        let i = j / 4;
        lemma_bytes_roundtrip(blob[4 * i], blob[4 * i + 1], blob[4 * i + 2], blob[4 * i + 3]);
    }
}

/// The document a row stands for.
pub open spec fn row_view(row: StoredRow) -> StoredCommandView {
    StoredCommandView {
        id: row.id,
        package_name: row.package_name@,
        command_name: row.command_name@,
        man_content: row.man_content@,
        embedding: decoded(row.embedding_blob@),
    }
}

/// Every row holds the stored form of an embedding.
pub open spec fn all_readable(rows: Seq<StoredRow>) -> bool {
    forall|i: int| 0 <= i < rows.len() ==> is_embedding_blob((#[trigger] rows[i]).embedding_blob@)
}

/// Turns the rows of a full scan into documents, in order. One corrupt
/// embedding fails the whole scan.
pub fn decode_rows(rows: &[StoredRow]) -> (result: Result<Vec<StoredCommand>, StorageError>)
    ensures
        match result {
            Ok(commands) => {
                &&& all_readable(rows@)
                &&& commands@.len() == rows@.len()
                &&& forall|i: int|
                    0 <= i < rows@.len() ==> (#[trigger] commands@[i])@ == row_view(rows@[i])
            },
            Err(error) => !all_readable(rows@) && error == StorageError::CorruptEmbedding,
        },
{
    let mut commands: Vec<StoredCommand> = Vec::new();
    let mut i: usize = 0;
    while i < rows.len()
        invariant
            i <= rows.len(),
            commands@.len() == i,
            forall|j: int| 0 <= j < i ==> is_embedding_blob((#[trigger] rows@[j]).embedding_blob@),
            forall|j: int| 0 <= j < i ==> (#[trigger] commands@[j])@ == row_view(rows@[j]),
        decreases rows.len() - i,
    {
        let row = &rows[i];
        match decode_embedding(row.embedding_blob.as_slice()) {
            Ok(embedding) => {
                commands.push(
                    StoredCommand {
                        id: row.id,
                        package_name: row.package_name.clone(),
                        command_name: row.command_name.clone(),
                        man_content: row.man_content.clone(),
                        embedding,
                    },
                );
            },
            Err(error) => {
                return Err(error);
            },
        }
        i = i + 1;
    }
    Ok(commands)
}

} // verus!
