//! The satellite feed: a plain-text picture of what is known of the map.

use vstd::prelude::*;

use crate::simulation::{DiscoveredTile, Position, Tile};

verus! {

/// What is known of the tile at `p`.
pub open spec fn known_tile(discovered: Seq<DiscoveredTile>, p: Position) -> Option<DiscoveredTile>
    decreases discovered.len(),
{
    if discovered.len() == 0 {
        None
    } else if discovered.last().position == p {
        Some(discovered.last())
    } else {
        known_tile(discovered.drop_last(), p)
    }
}

/// The symbol of a tile: the drone, the uplink, floor, wall, hazard, or what
/// is not known.
pub open spec fn symbol(drone: Position, discovered: Seq<DiscoveredTile>, p: Position) -> char {
    if p == drone {
        '@'
    } else {
        match known_tile(discovered, p) {
            None => '?',
            Some(tile) => if tile.uplink {
                'U'
            } else {
                match tile.tile {
                    Tile::Floor => '.',
                    Tile::Wall => '#',
                    Tile::Hazard => '~',
                }
            },
        }
    }
}

/// The first `columns` symbols of row `y`, with a space between them.
pub open spec fn row_text(
    drone: Position,
    discovered: Seq<DiscoveredTile>,
    y: int,
    columns: int,
) -> Seq<char>
    decreases columns,
{
    if columns <= 0 {
        Seq::empty()
    } else {
        let before = row_text(drone, discovered, y, columns - 1);
        let p = Position { x: (columns - 1) as i32, y: y as i32 };
        (if columns == 1 {
            before
        } else {
            before.push(' ')
        }).push(symbol(drone, discovered, p))
    }
}

/// The northernmost `rows` rows of a map, with a line feed between them.
pub open spec fn rows_text(
    drone: Position,
    discovered: Seq<DiscoveredTile>,
    width: int,
    height: int,
    rows: int,
) -> Seq<char>
    decreases rows,
{
    if rows <= 0 {
        Seq::empty()
    } else {
        let before = rows_text(drone, discovered, width, height, rows - 1);
        (if rows == 1 {
            before
        } else {
            before.push('\n')
        }) + row_text(drone, discovered, height - rows, width)
    }
}

/// The symbol of a tile.
fn tile_symbol(drone: Position, discovered: &[DiscoveredTile], p: Position) -> (c: char)
    ensures
        c == symbol(drone, discovered@, p),
{
    if p == drone {
        return '@';
    }
    let mut known: Option<DiscoveredTile> = None;
    for i in 0..discovered.len()
        invariant
            known == known_tile(discovered@.take(i as int), p),
    {
        assert(discovered@.take(i + 1).drop_last() =~= discovered@.take(i as int));
        assert(discovered@.take(i + 1).last() == discovered@[i as int]);
        if discovered[i].position == p {
            known = Some(discovered[i]);
        }
    }
    assert(discovered@.take(discovered@.len() as int) =~= discovered@);
    match known {
        None => '?',
        Some(tile) => if tile.uplink {
            'U'
        } else {
            match tile.tile {
                Tile::Floor => '.',
                Tile::Wall => '#',
                Tile::Hazard => '~',
            }
        },
    }
}

/// A picture of what is known of a map, north at the top.
pub fn render_satellite_view(
    drone_position: Position,
    map_width: i32,
    map_height: i32,
    discovered: &[DiscoveredTile],
) -> (picture: String)
    ensures
        picture@ == rows_text(
            drone_position,
            discovered@,
            map_width as int,
            map_height as int,
            map_height as int,
        ),
{
    let mut picture = String::new();
    let rows: i32 = if map_height < 0 {
        0
    } else {
        map_height
    };
    let columns: i32 = if map_width < 0 {
        0
    } else {
        map_width
    };
    for row in 0..rows
        invariant
            rows == if map_height < 0 {
                0
            } else {
                map_height
            },
            columns == if map_width < 0 {
                0
            } else {
                map_width
            },
            picture@ == rows_text(
                drone_position,
                discovered@,
                map_width as int,
                map_height as int,
                row as int,
            ),
    {
        if row > 0 {
            picture.push('\n');
        }
        let ghost above = picture@;
        let y: i32 = map_height - 1 - row;
        for x in 0..columns
            invariant
                columns == if map_width < 0 {
                    0
                } else {
                    map_width
                },
                picture@ == above + row_text(drone_position, discovered@, y as int, x as int),
        {
            if x > 0 {
                picture.push(' ');
            }
            picture.push(tile_symbol(drone_position, discovered, Position { x, y }));
            assert(picture@ =~= above + row_text(drone_position, discovered@, y as int, x + 1));
        }
    }
    picture
}

/// What is known of a tile is what the list says of its position.
pub proof fn law_known_tiles_are_found(discovered: Seq<DiscoveredTile>, p: Position)
    ensures
        known_tile(discovered, p) is None <==> forall|i: int|
            0 <= i < discovered.len() ==> (#[trigger] discovered[i]).position != p,
        known_tile(discovered, p) matches Some(tile) ==> tile.position == p && exists|i: int|
            0 <= i < discovered.len() && #[trigger] discovered[i] == tile,
    decreases discovered.len(),
{
    if discovered.len() > 0 {
        let rest = discovered.drop_last();
        law_known_tiles_are_found(rest, p);
        assert(discovered[discovered.len() - 1] == discovered.last());
        assert(forall|i: int| 0 <= i < rest.len() ==> #[trigger] rest[i] == discovered[i]);
        assert(forall|i: int| 0 <= i < rest.len() ==> #[trigger] discovered[i] == rest[i]);
        if discovered.last().position != p && known_tile(rest, p) is Some {
            let tile = known_tile(rest, p)->0;
            let i = choose|i: int| 0 <= i < rest.len() && #[trigger] rest[i] == tile;
            assert(discovered[i] == tile);
        }
    }
}

/// The symbols of the picture: the drone above all, a question mark for what
/// is not known, and for a tile that is known once, what it is.
pub proof fn law_symbols_show_what_is_known(
    drone: Position,
    discovered: Seq<DiscoveredTile>,
    p: Position,
    i: int,
)
    ensures
        symbol(drone, discovered, drone) == '@',
        p != drone && (forall|j: int|
            0 <= j < discovered.len() ==> (#[trigger] discovered[j]).position != p) ==> symbol(
            drone,
            discovered,
            p,
        ) == '?',
        p != drone && 0 <= i < discovered.len() && discovered[i].position == p && (forall|j: int|
            0 <= j < discovered.len() && j != i ==> (#[trigger] discovered[j]).position != p)
            ==> symbol(drone, discovered, p) == if discovered[i].uplink {
            'U'
        } else if discovered[i].tile == Tile::Wall {
            '#'
        } else if discovered[i].tile == Tile::Hazard {
            '~'
        } else {
            '.'
        },
{
    law_known_tiles_are_found(discovered, p);
}

/// A row shows its tiles from west to east, with a space between them.
proof fn lemma_row_text(
    drone: Position,
    discovered: Seq<DiscoveredTile>,
    y: int,
    columns: int,
    x: int,
)
    requires
        0 <= x < columns,
    ensures
        row_text(drone, discovered, y, columns).len() == 2 * columns - 1,
        row_text(drone, discovered, y, columns)[2 * x] == symbol(
            drone,
            discovered,
            Position { x: x as i32, y: y as i32 },
        ),
        x + 1 < columns ==> row_text(drone, discovered, y, columns)[2 * x + 1] == ' ',
    decreases columns,
{
    if columns > 1 {
        lemma_row_text(
            drone,
            discovered,
            y,
            columns - 1,
            if x < columns - 1 {
                x
            } else {
                0
            },
        );
    } else {
        reveal_with_fuel(row_text, 2);
    }
}

/// The rows of a picture stand one below the other, the northernmost first.
proof fn lemma_rows_text(
    drone: Position,
    discovered: Seq<DiscoveredTile>,
    width: int,
    height: int,
    rows: int,
    k: int,
    start: int,
)
    requires
        0 < width,
        0 <= k < rows,
        start == k * (2 * width),
    ensures
        ({
            let text = rows_text(drone, discovered, width, height, rows);
            &&& text.len() == rows * (2 * width) - 1
            &&& 0 <= start
            &&& start + 2 * width - 1 <= text.len()
            &&& text.subrange(start, start + 2 * width - 1) == row_text(
                drone,
                discovered,
                height - 1 - k,
                width,
            )
            &&& k + 1 < rows ==> start + 2 * width - 1 < text.len() && text[start + 2 * width - 1]
                == '\n'
        }),
    decreases rows,
{
    let text = rows_text(drone, discovered, width, height, rows);
    let above = rows_text(drone, discovered, width, height, rows - 1);
    let row = row_text(drone, discovered, height - rows, width);
    lemma_row_text(drone, discovered, height - rows, width, 0);
    let end = (rows - 1) * (2 * width);
    assert(rows * (2 * width) == end + 2 * width) by (nonlinear_arith)
        requires
            end == (rows - 1) * (2 * width),
    ;
    assert(0 <= start) by (nonlinear_arith)
        requires
            start == k * (2 * width),
            0 <= k,
            0 < width,
    ;
    if rows == 1 {
        assert(start == 0) by (nonlinear_arith)
            requires
                start == k * (2 * width),
                k == 0,
        ;
        assert(end == 0) by (nonlinear_arith)
            requires
                end == (rows - 1) * (2 * width),
                rows == 1,
        ;
        assert(above =~= Seq::<char>::empty());
        assert(text =~= row);
        assert(text.subrange(0, 2 * width - 1) =~= row);
    } else if k == rows - 1 {
        lemma_rows_text(drone, discovered, width, height, rows - 1, 0, 0);
        assert(text == above.push('\n') + row);
        assert(text.subrange(start, start + 2 * width - 1) =~= row);
    } else {
        lemma_rows_text(drone, discovered, width, height, rows - 1, k, start);
        assert(text == above.push('\n') + row);
        assert(text.subrange(start, start + 2 * width - 1) =~= above.subrange(
            start,
            start + 2 * width - 1,
        ));
        if k + 1 == rows - 1 {
            assert(start + 2 * width == end) by (nonlinear_arith)
                requires
                    start == k * (2 * width),
                    end == (rows - 1) * (2 * width),
                    k + 1 == rows - 1,
            ;
        }
    }
}

/// The layout of the picture: north at the top and west at the left, one
/// symbol for each tile, a space between two of a row and a line feed between
/// two rows.
pub proof fn law_picture_is_laid_out_as_the_map(
    drone: Position,
    discovered: Seq<DiscoveredTile>,
    width: i32,
    height: i32,
    p: Position,
)
    requires
        0 <= p.x < width,
        0 <= p.y < height,
    ensures
        ({
            let picture = rows_text(drone, discovered, width as int, height as int, height as int);
            let at = (height - 1 - p.y) * (2 * width) + 2 * p.x;
            &&& picture.len() == height * (2 * width) - 1
            &&& 0 <= at < picture.len()
            &&& picture[at] == symbol(drone, discovered, p)
            &&& p.x + 1 < width ==> picture[at + 1] == ' '
            &&& p.x + 1 == width && p.y > 0 ==> picture[at + 1] == '\n'
        }),
{
    let picture = rows_text(drone, discovered, width as int, height as int, height as int);
    let k = height - 1 - p.y;
    let start = k * (2 * width);
    lemma_rows_text(drone, discovered, width as int, height as int, height as int, k, start);
    lemma_row_text(drone, discovered, p.y as int, width as int, p.x as int);
    let row = row_text(drone, discovered, p.y as int, width as int);
    assert(picture.subrange(start, start + 2 * width - 1) == row);
    assert(picture[start + 2 * p.x] == row[2 * p.x]);
    if p.x + 1 < width {
        assert(picture[start + 2 * p.x + 1] == row[2 * p.x + 1]);
    }
}

} // verus!
