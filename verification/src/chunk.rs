//! The ground of a world: blocks, laid out in chunks, and what a client is
//! told of them when it connects.

use vstd::prelude::*;
use vstd::string::StringExecFns;

verus! {

/// What can go wrong with the chunks' database.
#[derive(Clone, Copy, Debug, PartialEq, Eq, Structural)]
pub enum Error {
    InitDbError,
    ChunkLoadError,
}

/// A tile, of one colour.
#[derive(Clone, Copy, Debug, PartialEq, Eq, Structural)]
pub struct TileBlock {
    pub color: usize,
}

/// A table.
#[derive(Clone, Copy, Debug, PartialEq, Eq, Structural)]
pub struct TableBlock {}

/// A block of the ground.
#[derive(Clone, Copy, Debug, PartialEq, Eq, Structural)]
pub enum Block {
    Tile(TileBlock),
    Table(TableBlock),
}

/// Where a block lies.
#[derive(Clone, Copy, Debug, PartialEq, Eq, Structural)]
pub struct Coords {
    pub x: usize,
    pub y: usize,
    pub z: usize,
}

/// A block as a client is told of it: the name of its kind, where it lies,
/// and its record.
#[derive(Clone, Debug, PartialEq, Eq)]
pub struct BlockData {
    pub block_type: String,
    pub block_coords: Coords,
    pub block_json: String,
}

/// All that a client is told of the blocks.
#[derive(Clone, Debug, PartialEq, Eq)]
pub struct Data {
    pub blocks: Vec<BlockData>,
}

/// A chunk as the database holds it: where it lies, and its blocks by number.
#[derive(Clone, Debug, PartialEq, Eq)]
pub struct ChunkRaw {
    pub x: i32,
    pub y: i32,
    pub blocks: Vec<u16>,
}

/// The number that eight bytes stand for, the lowest byte first.
pub open spec fn little_endian(bytes: Seq<u8>) -> int {
    bytes[0] + 256 * (bytes[1] + 256 * (bytes[2] + 256 * (bytes[3] + 256 * (bytes[4] + 256 * (
        bytes[5] + 256 * (bytes[6] + 256 * bytes[7]))))))
}

/// The blocks that bytes stand for: eight bytes give their number, the
/// lowest byte first, and two bytes each, the lower first, give the blocks.
/// Bytes that follow the last block do not count; bytes too few for the
/// blocks that are announced stand for nothing.
pub open spec fn bincode_blocks(data: Seq<u8>) -> Option<Seq<u16>> {
    if data.len() < 8 {
        None
    } else {
        let count = little_endian(data.take(8));
        if 8 + 2 * count > data.len() {
            None
        } else {
            Some(
                Seq::new(
                    count as nat,
                    |at: int| (data[8 + 2 * at] + 256 * data[8 + 2 * at + 1]) as u16,
                ),
            )
        }
    }
}

/// Reads a chunk's blocks with `bincode::deserialize`, which reads a
/// `Vec<u16>` as a length of eight bytes and then two bytes for each
/// element, all little-endian, and lets bytes follow; `None` where it
/// reports an error, which it does where the bytes end too early. The
/// contract claims that.
#[verifier::external_body]
fn decode_blocks(data: &Vec<u8>) -> (blocks: Option<Vec<u16>>)
    ensures
        match blocks {
            Some(blocks) => bincode_blocks(data@) == Some(blocks@),
            None => bincode_blocks(data@) is None,
        },
{
    match bincode::deserialize::<Vec<u16>>(data.as_slice()) {
        Ok(blocks) => Some(blocks),
        Err(_) => None,
    }
}

impl Default for TileBlock {
    fn default() -> (tile: TileBlock)
        ensures
            tile == (TileBlock { color: 0 }),
    {
        TileBlock { color: 0 }
    }
}

impl Default for TableBlock {
    fn default() -> (table: TableBlock)
        ensures
            table == (TableBlock {  }),
    {
        TableBlock {  }
    }
}

impl Default for Data {
    fn default() -> (data: Data)
        ensures
            data.blocks@ == Seq::<BlockData>::empty(),
    {
        Data { blocks: Vec::new() }
    }
}

impl Block {
    /// The name of a block's kind.
    pub open spec fn kind(self) -> Seq<char> {
        match self {
            Block::Tile(_) => "tile"@,
            Block::Table(_) => "table"@,
        }
    }

    /// A row of `count` tiles of one colour.
    pub fn tiles(count: usize, color: usize) -> (blocks: Vec<Block>)
        ensures
            blocks@.len() == count,
            forall|i: int| 0 <= i < count ==> blocks@[i] == Block::Tile(TileBlock { color }),
    {
        let mut blocks: Vec<Block> = Vec::new();
        let mut laid: usize = 0;
        while laid < count
            invariant
                laid <= count,
                blocks@.len() == laid,
                forall|i: int| 0 <= i < laid ==> blocks@[i] == Block::Tile(TileBlock { color }),
            decreases count - laid,
        {
            blocks.push(Block::Tile(TileBlock { color }));
            laid = laid + 1;
        }
        blocks
    }
}

impl Data {
    /// What a client is told of a row of blocks: each block with the name of
    /// its kind, its place in the row, and its record. `encoded` holds the
    /// blocks' records, in the blocks' order.
    pub fn describe(blocks: &Vec<Block>, encoded: &Vec<String>) -> (data: Data)
        requires
            encoded@.len() == blocks@.len(),
        ensures
            data.blocks@.len() == blocks@.len(),
            forall|i: int|
                0 <= i < blocks@.len() ==> {
                    &&& (#[trigger] data.blocks@[i]).block_type@ == blocks@[i].kind()
                    &&& data.blocks@[i].block_coords == (Coords { x: i as usize, y: 0, z: 0 })
                    &&& data.blocks@[i].block_json == encoded@[i]
                },
    {
        let mut data = Data { blocks: Vec::new() };
        let mut told: usize = 0;
        while told < blocks.len()
            invariant
                encoded@.len() == blocks@.len(),
                told <= blocks@.len(),
                data.blocks@.len() == told,
                forall|i: int|
                    0 <= i < told ==> {
                        &&& (#[trigger] data.blocks@[i]).block_type@ == blocks@[i].kind()
                        &&& data.blocks@[i].block_coords == (Coords { x: i as usize, y: 0, z: 0 })
                        &&& data.blocks@[i].block_json == encoded@[i]
                    },
            decreases blocks@.len() - told,
        {
            let block_type = match blocks[told] {
                Block::Tile(_) => String::from_str("tile"),
                Block::Table(_) => String::from_str("table"),
            };
            data.blocks.push(
                BlockData {
                    block_type,
                    block_coords: Coords { x: told, y: 0, z: 0 },
                    block_json: encoded[told].clone(),
                },
            );
            told = told + 1;
        }
        data
    }
}

impl ChunkRaw {
    /// The chunk that a row of the database holds. `row` is the first row
    /// found for the chunk's place, `None` where there is none or it could
    /// not be read: where the chunk lies, and its blocks as bytes.
    pub fn from_row(row: Option<(i32, i32, Vec<u8>)>) -> (chunk: Result<ChunkRaw, Error>)
        ensures
            match row {
                Some((x, y, data)) => match bincode_blocks(data@) {
                    Some(blocks) => chunk matches Ok(chunk) && chunk.x == x && chunk.y == y
                        && chunk.blocks@ == blocks,
                    None => chunk == Err::<ChunkRaw, Error>(Error::ChunkLoadError),
                },
                None => chunk == Err::<ChunkRaw, Error>(Error::ChunkLoadError),
            },
    {
        match row {
            Some((x, y, data)) => match decode_blocks(&data) {
                Some(blocks) => Ok(ChunkRaw { x, y, blocks }),
                None => Err(Error::ChunkLoadError),
            },
            None => Err(Error::ChunkLoadError),
        }
    }
}

} // verus!
