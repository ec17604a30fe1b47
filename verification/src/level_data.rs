//! The layouts of the levels.
//!
//! A level is a grid of cells. A cell holds 0 where it is empty, 1 to 8 for
//! a block of that colour, and 9 for a reinforced block.

use vstd::prelude::*;
use crate::components::{Color, Vec2};

verus! {

/// Rows of a level grid. The first `FIRST_BLOCK_ROW` rows hold no blocks.
pub const LEVEL_ROWS: usize = 16;

/// Cells of a row.
pub const LEVEL_COLUMNS: usize = 11;

/// The first row of the grid that holds blocks.
pub const FIRST_BLOCK_ROW: usize = 2;

/// The cell value of a reinforced block.
pub const REINFORCED: u8 = 9;

/// Colours of the palette: one for each cell value.
pub const PALETTE_SIZE: usize = 10;

/// The grid of one level.
pub type LevelGrid = [[u8; 11]; 16];

/// The grids of all levels, the first for level 1, and the palette of the
/// blocks. A table has at least one level and fewer than `u32::MAX`, and the
/// cells of its grids hold what a cell may hold.
pub struct LevelTable {
    grids: Vec<LevelGrid>,
    palette: [Color; 10],
}

/// Every cell of the grid holds a value from 0 to 9.
pub open spec fn grid_is_valid(grid: LevelGrid) -> bool {
    forall|row: int, column: int|
        0 <= row < LEVEL_ROWS && 0 <= column < LEVEL_COLUMNS ==> #[trigger] grid@[row]@[column]
            <= REINFORCED
}

/// The grids can make a table: there is at least one, there are fewer than
/// `u32::MAX`, and each one is valid.
pub open spec fn grids_are_valid(grids: Seq<LevelGrid>) -> bool {
    &&& 0 < grids.len() < u32::MAX
    &&& forall|i: int| 0 <= i < grids.len() ==> grid_is_valid(#[trigger] grids[i])
}

/// Whether every cell of the grid holds a value from 0 to 9.
pub fn check_grid(grid: &LevelGrid) -> (valid: bool)
    ensures
        valid == grid_is_valid(*grid),
{
    let mut row: usize = 0;
    while row < LEVEL_ROWS
        invariant
            row <= LEVEL_ROWS,
            forall|r: int, c: int|
                0 <= r < row && 0 <= c < LEVEL_COLUMNS ==> #[trigger] grid@[r]@[c] <= REINFORCED,
        decreases LEVEL_ROWS - row,
    {
        let mut column: usize = 0;
        while column < LEVEL_COLUMNS
            invariant
                row < LEVEL_ROWS,
                column <= LEVEL_COLUMNS,
                forall|r: int, c: int|
                    0 <= r < row && 0 <= c < LEVEL_COLUMNS ==> #[trigger] grid@[r]@[c]
                        <= REINFORCED,
                forall|c: int| 0 <= c < column ==> #[trigger] grid@[row as int]@[c] <= REINFORCED,
            decreases LEVEL_COLUMNS - column,
        {
            if grid[row][column] > REINFORCED {
                return false;
            }
            column += 1;
        }
        row += 1;
    }
    true
}

impl LevelTable {
    #[verifier::type_invariant]
    closed spec fn wf(&self) -> bool {
        grids_are_valid(self.grids@)
    }

    /// The grids of the levels, the first for level 1.
    pub closed spec fn grids(&self) -> Seq<LevelGrid> {
        self.grids@
    }

    /// The colour of each cell value.
    pub closed spec fn palette(&self) -> [Color; 10] {
        self.palette
    }

    /// The number of the last level.
    pub open spec fn last_level(&self) -> int {
        self.grids().len() as int
    }

    /// The table of the given grids, or `None` where there is no grid, there
    /// are too many, or a cell holds more than 9.
    pub fn new(grids: Vec<LevelGrid>, palette: [Color; 10]) -> (table: Option<LevelTable>)
        ensures
            table is Some <==> grids_are_valid(grids@),
            table matches Some(t) ==> t.grids() == grids@ && t.palette() == palette,
    {
        if grids.len() == 0 || grids.len() >= u32::MAX as usize {
            return None;
        }
        let mut i: usize = 0;
        while i < grids.len()
            invariant
                i <= grids.len(),
                forall|j: int| 0 <= j < i ==> grid_is_valid(#[trigger] grids[j]),
            decreases grids.len() - i,
        {
            if !check_grid(&grids[i]) {
                return None;
            }
            i += 1;
        }
        Some(LevelTable { grids, palette })
    }

    /// The number of levels, which is the number of the last level.
    pub fn level_count(&self) -> (count: usize)
        ensures
            count == self.last_level(),
            0 < count < u32::MAX,
    {
        proof {
            use_type_invariant(self);
        }
        self.grids.len()
    }

    /// The number of the level that stands for `level`: the nearest level of the table.
    pub open spec fn clamped(&self, level: u32) -> int {
        if level < 1 {
            1
        } else if level > self.last_level() {
            self.last_level()
        } else {
            level as int
        }
    }

    /// The grid of the level `level`, counted from 1; a level that the table
    /// does not have is replaced by the nearest that it has.
    pub fn grid(&self, level: u32) -> (grid: &LevelGrid)
        ensures
            *grid == self.grids()[self.clamped(level) - 1],
            grid_is_valid(*grid),
    {
        proof {
            use_type_invariant(self);
        }
        let last = self.grids.len();
        let level: usize = if level < 1 {
            1
        } else if level as usize > last {
            last
        } else {
            level as usize
        };
        &self.grids[level - 1]
    }

    /// The colour of each cell value.
    pub fn colors(&self) -> (colors: &[Color; 10])
        ensures
            *colors == self.palette(),
    {
        &self.palette
    }
}

/// Rows of a level grid that hold blocks.
pub const BLOCK_ROWS: usize = 14;

/// Cells of a level grid that may hold a block.
pub const BLOCK_CELLS: usize = 154;

/// Width of a block: 20 pixels.
pub const BLOCK_WIDTH: i32 = 20_480;

/// Height of a block: 8 pixels.
pub const BLOCK_HEIGHT: i32 = 8_192;

/// Where the first block of a level has its left edge: 5 pixels from the left.
pub const FIRST_BLOCK_X: i32 = 5_120;

/// Where the first block of a level has its upper edge: 3 pixels from the top.
pub const FIRST_BLOCK_Y: i32 = 3_072;

/// From one column of blocks to the next: the width of a block and a gap of 1 pixel.
pub const COLUMN_PITCH: i32 = 21_504;

/// From one row of blocks to the next: the height of a block and a gap of 1 pixel.
pub const ROW_PITCH: i32 = 9_216;

/// A block to create: where, how large, of which colour and with how many hit points.
#[derive(Clone, Copy, Debug, PartialEq, Eq, Structural)]
pub struct BlockSpawn {
    pub pos: Vec2,
    pub shape: Vec2,
    pub color: Color,
    pub hp: u32,
}

/// The block of the cell `cell`, counted row by row from the first row of
/// blocks; `None` for an empty cell. A reinforced block takes two hits, any
/// other one.
pub open spec fn block_at(grid: LevelGrid, palette: [Color; 10], cell: int) -> Option<BlockSpawn> {
    let row = cell / (LEVEL_COLUMNS as int);
    let column = cell % (LEVEL_COLUMNS as int);
    let value = grid@[row + FIRST_BLOCK_ROW]@[column];
    if value == 0 {
        None
    } else {
        Some(
            BlockSpawn {
                pos: Vec2 {
                    x: (FIRST_BLOCK_X + COLUMN_PITCH * column) as i32,
                    y: (FIRST_BLOCK_Y + ROW_PITCH * row) as i32,
                },
                shape: Vec2 { x: BLOCK_WIDTH, y: BLOCK_HEIGHT },
                color: palette@[value as int],
                hp: if value == REINFORCED {
                    2
                } else {
                    1
                },
            },
        )
    }
}

/// The blocks of the first `cells` cells of a grid, in the order of the cells.
pub open spec fn layout_of(grid: LevelGrid, palette: [Color; 10], cells: nat) -> Seq<BlockSpawn>
    decreases cells,
{
    if cells == 0 {
        Seq::empty()
    } else {
        let earlier = layout_of(grid, palette, (cells - 1) as nat);
        match block_at(grid, palette, cells - 1) {
            Some(block) => earlier.push(block),
            None => earlier,
        }
    }
}

/// The blocks of the level that is built for `level`.
pub open spec fn plan_of(levels: LevelTable, level: u32) -> Seq<BlockSpawn> {
    layout_of(levels.grids()[levels.clamped(level) - 1], levels.palette(), BLOCK_CELLS as nat)
}

/// The blocks of the level `level`, row by row and from left to right within
/// a row. A level that the table does not have is replaced by the nearest
/// that it has.
pub fn level_layout(levels: &LevelTable, level: u32) -> (blocks: Vec<BlockSpawn>)
    ensures
        blocks@ == plan_of(*levels, level),
{
    lay_out(levels.grid(level), levels.colors())
}

fn lay_out(grid: &LevelGrid, palette: &[Color; 10]) -> (blocks: Vec<BlockSpawn>)
    requires
        grid_is_valid(*grid),
    ensures
        blocks@ == layout_of(*grid, *palette, BLOCK_CELLS as nat),
{
    let mut blocks: Vec<BlockSpawn> = Vec::new();
    let mut row: usize = 0;
    while row < BLOCK_ROWS
        invariant
            row <= BLOCK_ROWS,
            grid_is_valid(*grid),
            blocks@ == layout_of(*grid, *palette, (row * LEVEL_COLUMNS) as nat),
        decreases BLOCK_ROWS - row,
    {
        let mut column: usize = 0;
        while column < LEVEL_COLUMNS
            invariant
                row < BLOCK_ROWS,
                column <= LEVEL_COLUMNS,
                grid_is_valid(*grid),
                blocks@ == layout_of(*grid, *palette, (row * LEVEL_COLUMNS + column) as nat),
            decreases LEVEL_COLUMNS - column,
        {
            let value = grid[row + FIRST_BLOCK_ROW][column];
            proof {
                let cell = (row * LEVEL_COLUMNS + column) as int;
                assert(cell / (LEVEL_COLUMNS as int) == row && cell % (LEVEL_COLUMNS as int)
                    == column) by (nonlinear_arith)
                    requires
                        cell == row * 11 + column,
                        0 <= column < 11,
                        LEVEL_COLUMNS == 11,
                ;
                assert(grid@[row + FIRST_BLOCK_ROW]@[column as int] <= REINFORCED);
            }
            if value != 0 {
                let x: i32 = FIRST_BLOCK_X + COLUMN_PITCH * (column as i32);
                let y: i32 = FIRST_BLOCK_Y + ROW_PITCH * (row as i32);
                blocks.push(
                    BlockSpawn {
                        pos: Vec2 { x, y },
                        shape: Vec2 { x: BLOCK_WIDTH, y: BLOCK_HEIGHT },
                        color: palette[value as usize],
                        hp: if value == REINFORCED {
                            2
                        } else {
                            1
                        },
                    },
                );
            }
            column += 1;
        }
        row += 1;
    }
    blocks
}

} // verus!
