//! The symbols and the styles of line of an en-route display, which are the
//! same for every facility.
use super::symbol::{SymbolDrawItem, SymbolDrawItemModel, SymbolIcon, SymbolIconModel};
use vstd::prelude::*;

verus! {

/// A line from `start` to `end`.
pub open spec fn stroke(start: (i8, i8), end: (i8, i8)) -> SymbolDrawItemModel {
    SymbolDrawItemModel::Line { start, end }
}

/// A full circle around the middle, not filled.
pub open spec fn ring(radius: i8) -> SymbolDrawItemModel {
    SymbolDrawItemModel::Arc {
        center: (0i8, 0i8),
        radius,
        inner_radius: 0,
        start_angle: 0,
        end_angle: 360,
        fill: false,
    }
}

/// A filled piece of a band around the middle, between the radii 3 and 6.
pub open spec fn blade(start_angle: i16, end_angle: i16) -> SymbolDrawItemModel {
    SymbolDrawItemModel::Arc {
        center: (0i8, 0i8),
        radius: 6,
        inner_radius: 3,
        start_angle,
        end_angle,
        fill: true,
    }
}

/// The upright oval of a beacon.
pub open spec fn oval() -> SymbolDrawItemModel {
    SymbolDrawItemModel::Ellipse {
        center: (0i8, 0i8),
        radius: (3i8, 5i8),
        inner_radius: (0i8, 0i8),
        rotation: 0,
        start_angle: 0,
        end_angle: 360,
        fill: false,
    }
}

/// The square of an airport, drawn from its lower left corner round.
pub open spec fn square() -> Seq<SymbolDrawItemModel> {
    seq![
        stroke((-2i8, 2i8), (2i8, 2i8)),
        stroke((2i8, 2i8), (2i8, -2i8)),
        stroke((2i8, -2i8), (-2i8, -2i8)),
        stroke((-2i8, -2i8), (-2i8, 2i8)),
    ]
}

/// A symbol under its own name.
pub open spec fn icon(name: Seq<char>, draw_items: Seq<SymbolDrawItemModel>) -> (
    Seq<char>,
    SymbolIconModel,
) {
    (name, SymbolIconModel { symbol_type: name, draw_items })
}

/// The symbols of an en-route display.
pub open spec fn eram_symbols() -> Seq<(Seq<char>, SymbolIconModel)> {
    seq![
        icon("vor"@, seq![oval()]),
        icon("ndb"@, seq![oval(), stroke((-4i8, -7i8), (4i8, 7i8))]),
        icon(
            "obstruction1"@,
            seq![
                stroke((-3i8, -6i8), (3i8, 6i8)),
                stroke((-3i8, 6i8), (3i8, -6i8)),
                stroke((-3i8, 7i8), (3i8, 7i8)),
            ],
        ),
        icon(
            "obstruction2"@,
            seq![
                stroke((-5i8, -6i8), (0i8, 6i8)),
                stroke((0i8, 6i8), (5i8, -6i8)),
                SymbolDrawItemModel::Arc {
                    center: (0i8, -4i8),
                    radius: 2,
                    inner_radius: 0,
                    start_angle: 0,
                    end_angle: 360,
                    fill: true,
                },
            ],
        ),
        icon(
            "heliport"@,
            seq![
                ring(6),
                stroke((-2i8, 0i8), (2i8, 0i8)),
                stroke((-2i8, 2i8), (-2i8, -2i8)),
                stroke((2i8, 2i8), (2i8, -2i8)),
            ],
        ),
        icon(
            "nuclear"@,
            seq![
                stroke((-1i8, 0i8), (1i8, 0i8)),
                stroke((0i8, 1i8), (0i8, -1i8)),
                blade(180, 240),
                blade(300, 360),
                blade(60, 120),
            ],
        ),
        icon(
            "emergencyairport"@,
            square() + seq![
                stroke((-5i8, 5i8), (-2i8, 2i8)),
                stroke((2i8, -2i8), (5i8, -5i8)),
            ],
        ),
        icon(
            "radar"@,
            seq![
                stroke((0i8, 3i8), (0i8, -3i8)),
                stroke((0i8, 3i8), (-4i8, -2i8)),
                stroke((0i8, -3i8), (4i8, 2i8)),
                SymbolDrawItemModel::Arc {
                    center: (1i8, 1i8),
                    radius: 7,
                    inner_radius: 0,
                    start_angle: 90,
                    end_angle: 180,
                    fill: false,
                },
            ],
        ),
        icon(
            "iaf"@,
            seq![stroke((-4i8, 0i8), (4i8, 0i8)), stroke((0i8, 4i8), (0i8, -4i8)), ring(4)],
        ),
        icon("rnavonlywaypoint"@, seq![ring(3), ring(5)]),
        icon(
            "rnav"@,
            seq![stroke((-2i8, 0i8), (2i8, 0i8)), stroke((0i8, 2i8), (0i8, -2i8))] + square(),
        ),
        icon(
            "airwayintersections"@,
            seq![
                stroke((-3i8, -3i8), (3i8, -3i8)),
                stroke((3i8, -3i8), (0i8, 3i8)),
                stroke((0i8, 3i8), (-3i8, -3i8)),
            ],
        ),
        icon(
            "otherwaypoints"@,
            seq![stroke((-5i8, 0i8), (5i8, 0i8)), stroke((0i8, 5i8), (0i8, -5i8))],
        ),
        icon("airport"@, square()),
        icon(
            "satelliteairport"@,
            seq![stroke((-6i8, -4i8), (-6i8, 3i8)), stroke((-6i8, 3i8), (5i8, 3i8))],
        ),
        icon(
            "tacan"@,
            seq![oval(), stroke((-2i8, 0i8), (2i8, 0i8)), stroke((0i8, 2i8), (0i8, -2i8))],
        ),
    ]
}

/// The styles of line of an en-route display, each as the lengths of its
/// strokes and gaps.
pub open spec fn eram_line_types() -> Seq<(Seq<char>, Seq<u8>)> {
    seq![
        ("solid"@, seq![1u8]),
        ("shortdashed"@, seq![8u8, 8u8]),
        ("longdashed"@, seq![16u8, 16u8]),
        ("longdashshortdash"@, seq![14u8, 6u8, 6u8, 6u8]),
    ]
}

fn line(start: (i8, i8), end: (i8, i8)) -> (r: SymbolDrawItem)
    ensures
        r.deep_view() == stroke(start, end),
{
    SymbolDrawItem::Line { start, end }
}

fn circle(radius: i8) -> (r: SymbolDrawItem)
    ensures
        r.deep_view() == ring(radius),
{
    SymbolDrawItem::Arc {
        center: (0, 0),
        radius,
        inner_radius: 0,
        start_angle: 0,
        end_angle: 360,
        fill: false,
    }
}

fn band(start_angle: i16, end_angle: i16) -> (r: SymbolDrawItem)
    ensures
        r.deep_view() == blade(start_angle, end_angle),
{
    SymbolDrawItem::Arc { center: (0, 0), radius: 6, inner_radius: 3, start_angle, end_angle, fill: true }
}

fn beacon() -> (r: SymbolDrawItem)
    ensures
        r.deep_view() == oval(),
{
    SymbolDrawItem::Ellipse {
        center: (0, 0),
        radius: (3, 5),
        inner_radius: (0, 0),
        rotation: 0,
        start_angle: 0,
        end_angle: 360,
        fill: false,
    }
}

/// Adds the four sides of the square of an airport to a drawing.
fn add_square(items: &mut Vec<SymbolDrawItem>)
    ensures
        final(items).deep_view() == old(items).deep_view() + square(),
{
    let ghost before = items.deep_view();
    items.push(line((-2, 2), (2, 2)));
    items.push(line((2, 2), (2, -2)));
    items.push(line((2, -2), (-2, -2)));
    items.push(line((-2, -2), (-2, 2)));
    assert(items.deep_view() =~= before + square());
}

fn named(name: &str, draw_items: Vec<SymbolDrawItem>) -> (r: (String, SymbolIcon))
    ensures
        r.deep_view() == icon(name@, draw_items.deep_view()),
{
    (String::from_str(name), SymbolIcon { symbol_type: String::from_str(name), draw_items })
}

/// Lists the symbols of an en-route display.
pub fn get_eram_symbols() -> (r: Vec<(String, SymbolIcon)>)
    ensures
        r.deep_view() == eram_symbols(),
{
    let mut out: Vec<(String, SymbolIcon)> = Vec::new();

    let mut vor: Vec<SymbolDrawItem> = Vec::new();
    vor.push(beacon());
    assert(vor.deep_view() =~= seq![oval()]);
    out.push(named("vor", vor));

    let mut ndb: Vec<SymbolDrawItem> = Vec::new();
    ndb.push(beacon());
    ndb.push(line((-4, -7), (4, 7)));
    assert(ndb.deep_view() =~= seq![oval(), stroke((-4i8, -7i8), (4i8, 7i8))]);
    out.push(named("ndb", ndb));

    let mut obstruction1: Vec<SymbolDrawItem> = Vec::new();
    obstruction1.push(line((-3, -6), (3, 6)));
    obstruction1.push(line((-3, 6), (3, -6)));
    obstruction1.push(line((-3, 7), (3, 7)));
    assert(obstruction1.deep_view() =~= seq![
        stroke((-3i8, -6i8), (3i8, 6i8)),
        stroke((-3i8, 6i8), (3i8, -6i8)),
        stroke((-3i8, 7i8), (3i8, 7i8)),
    ]);
    out.push(named("obstruction1", obstruction1));

    let mut obstruction2: Vec<SymbolDrawItem> = Vec::new();
    obstruction2.push(line((-5, -6), (0, 6)));
    obstruction2.push(line((0, 6), (5, -6)));
    obstruction2.push(
        SymbolDrawItem::Arc {
            center: (0, -4),
            radius: 2,
            inner_radius: 0,
            start_angle: 0,
            end_angle: 360,
            fill: true,
        },
    );
    assert(obstruction2.deep_view() =~= seq![
        stroke((-5i8, -6i8), (0i8, 6i8)),
        stroke((0i8, 6i8), (5i8, -6i8)),
        SymbolDrawItemModel::Arc {
            center: (0i8, -4i8),
            radius: 2,
            inner_radius: 0,
            start_angle: 0,
            end_angle: 360,
            fill: true,
        },
    ]);
    out.push(named("obstruction2", obstruction2));

    let mut heliport: Vec<SymbolDrawItem> = Vec::new();
    heliport.push(circle(6));
    heliport.push(line((-2, 0), (2, 0)));
    heliport.push(line((-2, 2), (-2, -2)));
    heliport.push(line((2, 2), (2, -2)));
    assert(heliport.deep_view() =~= seq![
        ring(6),
        stroke((-2i8, 0i8), (2i8, 0i8)),
        stroke((-2i8, 2i8), (-2i8, -2i8)),
        stroke((2i8, 2i8), (2i8, -2i8)),
    ]);
    out.push(named("heliport", heliport));

    let mut nuclear: Vec<SymbolDrawItem> = Vec::new();
    nuclear.push(line((-1, 0), (1, 0)));
    nuclear.push(line((0, 1), (0, -1)));
    nuclear.push(band(180, 240));
    nuclear.push(band(300, 360));
    nuclear.push(band(60, 120));
    assert(nuclear.deep_view() =~= seq![
        stroke((-1i8, 0i8), (1i8, 0i8)),
        stroke((0i8, 1i8), (0i8, -1i8)),
        blade(180, 240),
        blade(300, 360),
        blade(60, 120),
    ]);
    out.push(named("nuclear", nuclear));

    let mut emergency: Vec<SymbolDrawItem> = Vec::new();
    add_square(&mut emergency);
    emergency.push(line((-5, 5), (-2, 2)));
    emergency.push(line((2, -2), (5, -5)));
    assert(emergency.deep_view() =~= square() + seq![
        stroke((-5i8, 5i8), (-2i8, 2i8)),
        stroke((2i8, -2i8), (5i8, -5i8)),
    ]);
    out.push(named("emergencyairport", emergency));

    let mut radar: Vec<SymbolDrawItem> = Vec::new();
    radar.push(line((0, 3), (0, -3)));
    radar.push(line((0, 3), (-4, -2)));
    radar.push(line((0, -3), (4, 2)));
    radar.push(
        SymbolDrawItem::Arc {
            center: (1, 1),
            radius: 7,
            inner_radius: 0,
            start_angle: 90,
            end_angle: 180,
            fill: false,
        },
    );
    assert(radar.deep_view() =~= seq![
        stroke((0i8, 3i8), (0i8, -3i8)),
        stroke((0i8, 3i8), (-4i8, -2i8)),
        stroke((0i8, -3i8), (4i8, 2i8)),
        SymbolDrawItemModel::Arc {
            center: (1i8, 1i8),
            radius: 7,
            inner_radius: 0,
            start_angle: 90,
            end_angle: 180,
            fill: false,
        },
    ]);
    out.push(named("radar", radar));

    let mut iaf: Vec<SymbolDrawItem> = Vec::new();
    iaf.push(line((-4, 0), (4, 0)));
    iaf.push(line((0, 4), (0, -4)));
    iaf.push(circle(4));
    assert(iaf.deep_view() =~= seq![
        stroke((-4i8, 0i8), (4i8, 0i8)),
        stroke((0i8, 4i8), (0i8, -4i8)),
        ring(4),
    ]);
    out.push(named("iaf", iaf));

    let mut rnav_only: Vec<SymbolDrawItem> = Vec::new();
    rnav_only.push(circle(3));
    rnav_only.push(circle(5));
    assert(rnav_only.deep_view() =~= seq![ring(3), ring(5)]);
    out.push(named("rnavonlywaypoint", rnav_only));

    let mut rnav: Vec<SymbolDrawItem> = Vec::new();
    rnav.push(line((-2, 0), (2, 0)));
    rnav.push(line((0, 2), (0, -2)));
    assert(rnav.deep_view() =~= seq![
        stroke((-2i8, 0i8), (2i8, 0i8)),
        stroke((0i8, 2i8), (0i8, -2i8)),
    ]);
    add_square(&mut rnav);
    out.push(named("rnav", rnav));

    let mut intersections: Vec<SymbolDrawItem> = Vec::new();
    intersections.push(line((-3, -3), (3, -3)));
    intersections.push(line((3, -3), (0, 3)));
    intersections.push(line((0, 3), (-3, -3)));
    assert(intersections.deep_view() =~= seq![
        stroke((-3i8, -3i8), (3i8, -3i8)),
        stroke((3i8, -3i8), (0i8, 3i8)),
        stroke((0i8, 3i8), (-3i8, -3i8)),
    ]);
    out.push(named("airwayintersections", intersections));

    let mut other: Vec<SymbolDrawItem> = Vec::new();
    other.push(line((-5, 0), (5, 0)));
    other.push(line((0, 5), (0, -5)));
    assert(other.deep_view() =~= seq![
        stroke((-5i8, 0i8), (5i8, 0i8)),
        stroke((0i8, 5i8), (0i8, -5i8)),
    ]);
    out.push(named("otherwaypoints", other));

    let mut airport: Vec<SymbolDrawItem> = Vec::new();
    add_square(&mut airport);
    assert(airport.deep_view() =~= square());
    out.push(named("airport", airport));

    let mut satellite: Vec<SymbolDrawItem> = Vec::new();
    satellite.push(line((-6, -4), (-6, 3)));
    satellite.push(line((-6, 3), (5, 3)));
    assert(satellite.deep_view() =~= seq![
        stroke((-6i8, -4i8), (-6i8, 3i8)),
        stroke((-6i8, 3i8), (5i8, 3i8)),
    ]);
    out.push(named("satelliteairport", satellite));

    let mut tacan: Vec<SymbolDrawItem> = Vec::new();
    tacan.push(beacon());
    tacan.push(line((-2, 0), (2, 0)));
    tacan.push(line((0, 2), (0, -2)));
    assert(tacan.deep_view() =~= seq![
        oval(),
        stroke((-2i8, 0i8), (2i8, 0i8)),
        stroke((0i8, 2i8), (0i8, -2i8)),
    ]);
    out.push(named("tacan", tacan));

    assert(out.deep_view() =~= eram_symbols());
    out
}

/// Lists the styles of line of an en-route display.
pub fn get_eram_lines() -> (r: Vec<(String, Vec<u8>)>)
    ensures
        r.deep_view() == eram_line_types(),
{
    let mut out: Vec<(String, Vec<u8>)> = Vec::new();
    let solid: Vec<u8> = vec![1];
    let short_dashed: Vec<u8> = vec![8, 8];
    let long_dashed: Vec<u8> = vec![16, 16];
    let long_short: Vec<u8> = vec![14, 6, 6, 6];
    proof {
        assert(solid.deep_view() =~= seq![1u8]);
        assert(short_dashed.deep_view() =~= seq![8u8, 8u8]);
        assert(long_dashed.deep_view() =~= seq![16u8, 16u8]);
        assert(long_short.deep_view() =~= seq![14u8, 6u8, 6u8, 6u8]);
    }
    out.push((String::from_str("solid"), solid));
    out.push((String::from_str("shortdashed"), short_dashed));
    out.push((String::from_str("longdashed"), long_dashed));
    out.push((String::from_str("longdashshortdash"), long_short));
    assert(out.deep_view() =~= eram_line_types());
    out
}

} // verus!
