//! Symbols as small drawings, read from the drawing commands of a symbology
//! file.
use crate::loaders::euroscope::error::ValueError;
use crate::loaders::euroscope::symbology::SymbologyItemType;
use crate::number::{parse_i16, parse_i8, signed};
use crate::text::{chars, fields, is_literal, split, views};
use vstd::prelude::*;

verus! {

/// A point of a drawing, right and down positive.
pub type Point = (i8, i8);

/// One stroke of a drawing.
#[allow(inconsistent_fields)]
#[derive(Debug, PartialEq, Eq)]
pub enum SymbolDrawItem {
    Line { start: (i8, i8), end: (i8, i8) },
    Polygon(Vec<(i8, i8)>),
    Arc {
        center: (i8, i8),
        radius: i8,
        inner_radius: i8,
        start_angle: i16,
        end_angle: i16,
        fill: bool,
    },
    SetPixel((i8, i8)),
    Ellipse {
        center: (i8, i8),
        radius: (i8, i8),
        inner_radius: (i8, i8),
        rotation: i16,
        start_angle: i16,
        end_angle: i16,
        fill: bool,
    },
}

#[allow(inconsistent_fields)]
pub enum SymbolDrawItemModel {
    Line { start: (i8, i8), end: (i8, i8) },
    Polygon(Seq<(i8, i8)>),
    Arc {
        center: (i8, i8),
        radius: i8,
        inner_radius: i8,
        start_angle: i16,
        end_angle: i16,
        fill: bool,
    },
    SetPixel((i8, i8)),
    Ellipse {
        center: (i8, i8),
        radius: (i8, i8),
        inner_radius: (i8, i8),
        rotation: i16,
        start_angle: i16,
        end_angle: i16,
        fill: bool,
    },
}

impl DeepView for SymbolDrawItem {
    type V = SymbolDrawItemModel;

    open spec fn deep_view(&self) -> SymbolDrawItemModel {
        match self {
            SymbolDrawItem::Line { start, end } => SymbolDrawItemModel::Line {
                start: *start,
                end: *end,
            },
            SymbolDrawItem::Polygon(points) => SymbolDrawItemModel::Polygon(points@),
            SymbolDrawItem::Arc {
                center,
                radius,
                inner_radius,
                start_angle,
                end_angle,
                fill,
            } => SymbolDrawItemModel::Arc {
                center: *center,
                radius: *radius,
                inner_radius: *inner_radius,
                start_angle: *start_angle,
                end_angle: *end_angle,
                fill: *fill,
            },
            SymbolDrawItem::SetPixel(point) => SymbolDrawItemModel::SetPixel(*point),
            SymbolDrawItem::Ellipse {
                center,
                radius,
                inner_radius,
                rotation,
                start_angle,
                end_angle,
                fill,
            } => SymbolDrawItemModel::Ellipse {
                center: *center,
                radius: *radius,
                inner_radius: *inner_radius,
                rotation: *rotation,
                start_angle: *start_angle,
                end_angle: *end_angle,
                fill: *fill,
            },
        }
    }
}

/// A symbol: the kind of thing that it stands for, and its strokes in the
/// order in which they are drawn.
#[derive(Debug, PartialEq, Eq)]
pub struct SymbolIcon {
    pub symbol_type: String,
    pub draw_items: Vec<SymbolDrawItem>,
}

pub struct SymbolIconModel {
    pub symbol_type: Seq<char>,
    pub draw_items: Seq<SymbolDrawItemModel>,
}

impl DeepView for SymbolIcon {
    type V = SymbolIconModel;

    open spec fn deep_view(&self) -> SymbolIconModel {
        SymbolIconModel { symbol_type: self.symbol_type@, draw_items: self.draw_items.deep_view() }
    }
}

/// What the symbol with the number `index` stands for.
pub open spec fn icon_name(index: u8) -> Seq<char> {
    if index == 0 {
        SymbologyItemType::Airports.key()
    } else if index == 1 {
        SymbologyItemType::Ndbs.key()
    } else if index == 2 {
        SymbologyItemType::Vors.key()
    } else if index == 3 {
        SymbologyItemType::Fixes.key()
    } else if index == 4 {
        "aircraft_stby"@
    } else if index == 5 {
        "aircraft_prim"@
    } else if index == 6 {
        "aircraft_corr_sec_a+c"@
    } else if index == 7 {
        "aircraft_corr_sec_s"@
    } else if index == 8 {
        "aircraft_corr_prim_a+c"@
    } else if index == 9 {
        "aircraft_corr_prim_s"@
    } else if index == 10 {
        "aircraft_corr_a+c_ident"@
    } else if index == 11 {
        "aircraft_corr_s_ident"@
    } else if index == 12 {
        "aircraft_flt_plan"@
    } else if index == 13 {
        "aircraft_coast"@
    } else if index == 14 {
        "history_dot"@
    } else if index == 15 {
        "aircraft_ground"@
    } else if index == 16 {
        "aircraft_uncorr_sec_a+c"@
    } else if index == 17 {
        "aircraft_uncorr_sec_s"@
    } else if index == 18 {
        "aircraft_uncorr_prim_a+c"@
    } else if index == 19 {
        "aircraft_uncorr_prim_s"@
    } else if index == 20 {
        "aircraft_uncorr_a+c_ident"@
    } else if index == 21 {
        "aircraft_uncorr_s_ident"@
    } else if index == 22 {
        "ground_vehicle"@
    } else if index == 23 {
        "ground_rotorcraft"@
    } else {
        "unknown"@
    }
}

/// The number of 8 bits that the field at index `i` writes.
pub open spec fn short_field(f: Seq<Seq<char>>, i: int) -> Result<i8, ValueError> {
    if i >= f.len() {
        Err(ValueError::MissingValue)
    } else {
        match signed(f[i], i8::MIN as int, i8::MAX as int) {
            Some(v) => Ok(v as i8),
            None => Err(ValueError::InvalidNumber),
        }
    }
}

/// The number of 16 bits that the field at index `i` writes.
pub open spec fn angle_field(f: Seq<Seq<char>>, i: int) -> Result<i16, ValueError> {
    if i >= f.len() {
        Err(ValueError::MissingValue)
    } else {
        match signed(f[i], i16::MIN as int, i16::MAX as int) {
            Some(v) => Ok(v as i16),
            None => Err(ValueError::InvalidNumber),
        }
    }
}

/// The point that the fields at the indices `i` and `i + 1` write. A file
/// counts upwards and a drawing downwards, so the second number changes its
/// sign; the one number of 8 bits that has no opposite is refused.
pub open spec fn point_field(f: Seq<Seq<char>>, i: int) -> Result<(i8, i8), ValueError> {
    match short_field(f, i) {
        Err(e) => Err(e),
        Ok(x) => match short_field(f, i + 1) {
            Err(e) => Err(e),
            Ok(y) => if y == i8::MIN {
                Err(ValueError::InvalidNumber)
            } else {
                Ok((x, (-y) as i8))
            },
        },
    }
}

/// The first `n` corners of the polygon that the fields write after the
/// first: two fields to a corner.
pub open spec fn corners(f: Seq<Seq<char>>, n: nat) -> Result<Seq<(i8, i8)>, ValueError>
    decreases n,
{
    if n == 0 {
        Ok(Seq::empty())
    } else {
        match corners(f, (n - 1) as nat) {
            Err(e) => Err(e),
            Ok(before) => match point_field(f, 2 * n - 1) {
                Err(e) => Err(e),
                Ok(p) => Ok(before.push(p)),
            },
        }
    }
}

/// The arc that the fields write after the first: the centre, the radius,
/// and the angles at which it starts and ends.
pub open spec fn arc_written(f: Seq<Seq<char>>, fill: bool) -> Result<
    SymbolDrawItemModel,
    ValueError,
> {
    match point_field(f, 1) {
        Err(e) => Err(e),
        Ok(center) => match short_field(f, 3) {
            Err(e) => Err(e),
            Ok(radius) => match angle_field(f, 4) {
                Err(e) => Err(e),
                Ok(start_angle) => match angle_field(f, 5) {
                    Err(e) => Err(e),
                    Ok(end_angle) => Ok(
                        SymbolDrawItemModel::Arc {
                            center,
                            radius,
                            inner_radius: 0,
                            start_angle,
                            end_angle,
                            fill,
                        },
                    ),
                },
            },
        },
    }
}

/// A drawing in progress: the strokes so far, and where the pen is.
pub struct Pen {
    pub items: Seq<SymbolDrawItemModel>,
    pub cursor: (i8, i8),
}

/// The drawing after one more command. The fields of a command stand
/// between single spaces, the first being its name.
///
/// `MOVETO` moves the pen. `LINETO` draws a line from the pen to a point and
/// leaves the pen there. `SETPIXEL` sets a point and leaves the pen there.
/// `POLYGON` draws through all the corners that follow in pairs and leaves
/// the pen at the last. `ARC` and `FILLARC` draw an arc, open or filled, and
/// leave the pen where it was. Any other command draws nothing.
pub open spec fn drawn(pen: Pen, line: Seq<char>) -> Result<Pen, ValueError> {
    let f = fields(line, ' ');
    if f[0] == "MOVETO"@ {
        match point_field(f, 1) {
            Ok(p) => Ok(Pen { cursor: p, ..pen }),
            Err(e) => Err(e),
        }
    } else if f[0] == "LINETO"@ {
        match point_field(f, 1) {
            Ok(p) => Ok(
                Pen {
                    items: pen.items.push(SymbolDrawItemModel::Line { start: pen.cursor, end: p }),
                    cursor: p,
                },
            ),
            Err(e) => Err(e),
        }
    } else if f[0] == "SETPIXEL"@ {
        match point_field(f, 1) {
            Ok(p) => Ok(
                Pen { items: pen.items.push(SymbolDrawItemModel::SetPixel(p)), cursor: p },
            ),
            Err(e) => Err(e),
        }
    } else if f[0] == "POLYGON"@ {
        match corners(f, ((f.len() - 1) / 2) as nat) {
            Ok(points) => Ok(
                Pen {
                    items: pen.items.push(SymbolDrawItemModel::Polygon(points)),
                    cursor: if points.len() > 0 {
                        points.last()
                    } else {
                        pen.cursor
                    },
                },
            ),
            Err(e) => Err(e),
        }
    } else if f[0] == "ARC"@ {
        match arc_written(f, false) {
            Ok(arc) => Ok(Pen { items: pen.items.push(arc), ..pen }),
            Err(e) => Err(e),
        }
    } else if f[0] == "FILLARC"@ {
        match arc_written(f, true) {
            Ok(arc) => Ok(Pen { items: pen.items.push(arc), ..pen }),
            Err(e) => Err(e),
        }
    } else {
        Ok(pen)
    }
}

/// The drawing after all of `lines`, begun with the pen in the middle, or
/// what is wrong with the first command that is refused.
pub open spec fn drawing(lines: Seq<Seq<char>>) -> Result<Pen, ValueError>
    decreases lines.len(),
{
    if lines.len() == 0 {
        Ok(Pen { items: Seq::empty(), cursor: (0i8, 0i8) })
    } else {
        match drawing(lines.drop_last()) {
            Ok(pen) => drawn(pen, lines.last()),
            Err(e) => Err(e),
        }
    }
}

/// Once a command has been refused, no later command makes the drawing good
/// again.
pub proof fn lemma_drawing_stays_refused(lines: Seq<Seq<char>>, n: int)
    requires
        0 <= n <= lines.len(),
        drawing(lines.take(n)) is Err,
    ensures
        drawing(lines) == drawing(lines.take(n)),
    decreases lines.len(),
{
    if n < lines.len() {
        assert(lines.drop_last().take(n) =~= lines.take(n));
        lemma_drawing_stays_refused(lines.drop_last(), n);
    } else {
        assert(lines.take(n) =~= lines);
    }
}

fn read_short(f: &Vec<&[char]>, i: usize) -> (r: Result<i8, ValueError>)
    ensures
        r == short_field(views(f@), i as int),
{
    if i >= f.len() {
        return Err(ValueError::MissingValue);
    }
    match parse_i8(f[i]) {
        Some(v) => Ok(v),
        None => Err(ValueError::InvalidNumber),
    }
}

fn read_angle(f: &Vec<&[char]>, i: usize) -> (r: Result<i16, ValueError>)
    ensures
        r == angle_field(views(f@), i as int),
{
    if i >= f.len() {
        return Err(ValueError::MissingValue);
    }
    match parse_i16(f[i]) {
        Some(v) => Ok(v),
        None => Err(ValueError::InvalidNumber),
    }
}

fn read_point(f: &Vec<&[char]>, i: usize) -> (r: Result<(i8, i8), ValueError>)
    requires
        i < usize::MAX,
    ensures
        r == point_field(views(f@), i as int),
{
    let x = match read_short(f, i) {
        Ok(v) => v,
        Err(e) => {
            return Err(e);
        },
    };
    let y = match read_short(f, i + 1) {
        Ok(v) => v,
        Err(e) => {
            return Err(e);
        },
    };
    if y == i8::MIN {
        return Err(ValueError::InvalidNumber);
    }
    Ok((x, -y))
}

fn read_arc(f: &Vec<&[char]>, fill: bool) -> (r: Result<SymbolDrawItem, ValueError>)
    ensures
        match arc_written(views(f@), fill) {
            Ok(arc) => r is Ok && r->Ok_0.deep_view() == arc,
            Err(e) => r is Err && r->Err_0 == e,
        },
{
    let center = match read_point(f, 1) {
        Ok(v) => v,
        Err(e) => {
            return Err(e);
        },
    };
    let radius = match read_short(f, 3) {
        Ok(v) => v,
        Err(e) => {
            return Err(e);
        },
    };
    let start_angle = match read_angle(f, 4) {
        Ok(v) => v,
        Err(e) => {
            return Err(e);
        },
    };
    let end_angle = match read_angle(f, 5) {
        Ok(v) => v,
        Err(e) => {
            return Err(e);
        },
    };
    Ok(SymbolDrawItem::Arc { center, radius, inner_radius: 0, start_angle, end_angle, fill })
}

fn read_corners(f: &Vec<&[char]>) -> (r: Result<Vec<(i8, i8)>, ValueError>)
    requires
        f@.len() >= 1,
    ensures
        match corners(views(f@), ((f@.len() - 1) / 2) as nat) {
            Ok(points) => r is Ok && r->Ok_0@ == points,
            Err(e) => r is Err && r->Err_0 == e,
        },
{
    let count: usize = (f.len() - 1) / 2;
    let mut points: Vec<(i8, i8)> = Vec::new();
    let mut n: usize = 0;
    while n < count
        invariant
            n <= count,
            f.len() >= 1,
            count == (f.len() - 1) / 2,
            2 * count + 1 <= f.len(),
            corners(views(f@), n as nat) == Ok::<Seq<(i8, i8)>, ValueError>(points@),
        decreases count - n,
    {
        match read_point(f, 2 * n + 1) {
            Ok(p) => {
                points.push(p);
            },
            Err(e) => {
                proof {
                    lemma_corners_stay_refused(views(f@), (n + 1) as nat, count as nat);
                }
                return Err(e);
            },
        }
        n += 1;
    }
    Ok(points)
}

proof fn lemma_corners_stay_refused(f: Seq<Seq<char>>, n: nat, m: nat)
    requires
        n <= m,
        corners(f, n) is Err,
    ensures
        corners(f, m) == corners(f, n),
    decreases m,
{
    if n < m {
        lemma_corners_stay_refused(f, n, (m - 1) as nat);
    }
}

/// The name of the symbol with the number `index`.
pub fn icon_name_of(index: u8) -> (r: String)
    ensures
        r@ == icon_name(index),
{
    if index == 0 {
        SymbologyItemType::Airports.to_key_string()
    } else if index == 1 {
        SymbologyItemType::Ndbs.to_key_string()
    } else if index == 2 {
        SymbologyItemType::Vors.to_key_string()
    } else if index == 3 {
        SymbologyItemType::Fixes.to_key_string()
    } else if index == 4 {
        String::from_str("aircraft_stby")
    } else if index == 5 {
        String::from_str("aircraft_prim")
    } else if index == 6 {
        String::from_str("aircraft_corr_sec_a+c")
    } else if index == 7 {
        String::from_str("aircraft_corr_sec_s")
    } else if index == 8 {
        String::from_str("aircraft_corr_prim_a+c")
    } else if index == 9 {
        String::from_str("aircraft_corr_prim_s")
    } else if index == 10 {
        String::from_str("aircraft_corr_a+c_ident")
    } else if index == 11 {
        String::from_str("aircraft_corr_s_ident")
    } else if index == 12 {
        String::from_str("aircraft_flt_plan")
    } else if index == 13 {
        String::from_str("aircraft_coast")
    } else if index == 14 {
        String::from_str("history_dot")
    } else if index == 15 {
        String::from_str("aircraft_ground")
    } else if index == 16 {
        String::from_str("aircraft_uncorr_sec_a+c")
    } else if index == 17 {
        String::from_str("aircraft_uncorr_sec_s")
    } else if index == 18 {
        String::from_str("aircraft_uncorr_prim_a+c")
    } else if index == 19 {
        String::from_str("aircraft_uncorr_prim_s")
    } else if index == 20 {
        String::from_str("aircraft_uncorr_a+c_ident")
    } else if index == 21 {
        String::from_str("aircraft_uncorr_s_ident")
    } else if index == 22 {
        String::from_str("ground_vehicle")
    } else if index == 23 {
        String::from_str("ground_rotorcraft")
    } else {
        String::from_str("unknown")
    }
}

/// Carries out one drawing command.
fn draw(items: &mut Vec<SymbolDrawItem>, cursor: &mut (i8, i8), line: &str) -> (r: Result<
    (),
    ValueError,
>)
    ensures
        match drawn(Pen { items: old(items).deep_view(), cursor: *old(cursor) }, line@) {
            Ok(pen) => r is Ok && final(items).deep_view() == pen.items && *final(cursor)
                == pen.cursor,
            Err(e) => r is Err && r->Err_0 == e,
        },
{
    let all = chars(line);
    let f = split(all.as_slice(), ' ');
    if is_literal(f[0], "MOVETO") {
        let p = match read_point(&f, 1) {
            Ok(p) => p,
            Err(e) => {
                return Err(e);
            },
        };
        *cursor = p;
    } else if is_literal(f[0], "LINETO") {
        let p = match read_point(&f, 1) {
            Ok(p) => p,
            Err(e) => {
                return Err(e);
            },
        };
        let item = SymbolDrawItem::Line { start: *cursor, end: p };
        items.push(item);
        *cursor = p;
    } else if is_literal(f[0], "SETPIXEL") {
        let p = match read_point(&f, 1) {
            Ok(p) => p,
            Err(e) => {
                return Err(e);
            },
        };
        let item = SymbolDrawItem::SetPixel(p);
        items.push(item);
        *cursor = p;
    } else if is_literal(f[0], "POLYGON") {
        let points = match read_corners(&f) {
            Ok(p) => p,
            Err(e) => {
                return Err(e);
            },
        };
        if points.len() > 0 {
            *cursor = points[points.len() - 1];
        }
        let item = SymbolDrawItem::Polygon(points);
        items.push(item);
    } else if is_literal(f[0], "ARC") {
        let item = match read_arc(&f, false) {
            Ok(a) => a,
            Err(e) => {
                return Err(e);
            },
        };
        items.push(item);
    } else if is_literal(f[0], "FILLARC") {
        let item = match read_arc(&f, true) {
            Ok(a) => a,
            Err(e) => {
                return Err(e);
            },
        };
        items.push(item);
    }
    Ok(())
}

impl SymbolIcon {
    /// The symbol with the number `index` that the commands `lines` draw.
    pub open spec fn made(index: u8, lines: Seq<Seq<char>>) -> Result<SymbolIconModel, ValueError> {
        match drawing(lines) {
            Ok(pen) => Ok(SymbolIconModel { symbol_type: icon_name(index), draw_items: pen.items }),
            Err(e) => Err(e),
        }
    }

    /// Makes a symbol from its number and its drawing commands. The first
    /// command that is refused ends the reading.
    pub fn from_lines(icon_index: u8, icon: &Vec<String>) -> (r: Result<SymbolIcon, ValueError>)
        ensures
            match Self::made(icon_index, icon.deep_view()) {
                Ok(m) => r is Ok && r->Ok_0.deep_view() == m,
                Err(e) => r is Err && r->Err_0 == e,
            },
    {
        let mut draw_items: Vec<SymbolDrawItem> = Vec::new();
        let mut cursor: (i8, i8) = (0, 0);
        let ghost lines = icon.deep_view();
        let mut i: usize = 0;
        assert(draw_items.deep_view() =~= Seq::empty());
        while i < icon.len()
            invariant
                i <= icon.len(),
                lines == icon.deep_view(),
                drawing(lines.take(i as int)) == Ok::<Pen, ValueError>(
                    Pen { items: draw_items.deep_view(), cursor },
                ),
            decreases icon.len() - i,
        {
            proof {
                let head = lines.take(i + 1);
                assert(head.drop_last() =~= lines.take(i as int));
            }
            if let Err(e) = draw(&mut draw_items, &mut cursor, icon[i].as_str()) {
                proof {
                    lemma_drawing_stays_refused(lines, i + 1);
                }
                return Err(e);
            }
            i += 1;
        }
        assert(lines.take(icon.len() as int) =~= lines);
        Ok(SymbolIcon { symbol_type: icon_name_of(icon_index), draw_items })
    }

    /// Makes a symbol from its number and its drawing commands. The first
    /// command that is refused ends the reading.
    pub fn try_from_es_symbol_icon(icon_index: u8, icon: Vec<String>) -> (r: Result<
        SymbolIcon,
        ValueError,
    >)
        ensures
            match Self::made(icon_index, icon.deep_view()) {
                Ok(m) => r is Ok && r->Ok_0.deep_view() == m,
                Err(e) => r is Err && r->Err_0 == e,
            },
    {
        Self::from_lines(icon_index, &icon)
    }
}

} // verus!
