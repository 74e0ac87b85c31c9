//! A smiling face of three strokes, as it was once drawn by hand. The points
//! are in canvas units, 64 to the pixel.

use vstd::prelude::*;
use crate::drawing::Color;
use crate::strokes::{PointAndPressure, Stroke, StrokeView, Strokes};

verus! {

/// The points of the left eye.
pub open spec fn left_eye_spec() -> Seq<PointAndPressure> {
    seq![
        PointAndPressure { x: 74696, y: 49953, pressure: 1978 },
        PointAndPressure { x: 74685, y: 49959, pressure: 2167 },
        PointAndPressure { x: 74679, y: 49964, pressure: 2458 },
        PointAndPressure { x: 74685, y: 49959, pressure: 2725 },
        PointAndPressure { x: 74685, y: 49953, pressure: 2842 },
        PointAndPressure { x: 74685, y: 49953, pressure: 2839 },
        PointAndPressure { x: 74690, y: 49953, pressure: 2765 },
        PointAndPressure { x: 74696, y: 49953, pressure: 2603 },
        PointAndPressure { x: 74702, y: 49959, pressure: 2424 },
        PointAndPressure { x: 74725, y: 49964, pressure: 2256 },
        PointAndPressure { x: 74776, y: 49970, pressure: 2029 },
        PointAndPressure { x: 74833, y: 49987, pressure: 1709 },
        PointAndPressure { x: 74890, y: 49999, pressure: 1490 },
        PointAndPressure { x: 74959, y: 50004, pressure: 1441 },
        PointAndPressure { x: 75005, y: 50050, pressure: 916 },
        PointAndPressure { x: 75073, y: 50056, pressure: 10 },
    ]
}

/// The points of the left eye.
fn left_eye() -> (points: Vec<PointAndPressure>)
    ensures
        points@ == left_eye_spec(),
{
    let points = vec![
        PointAndPressure { x: 74696, y: 49953, pressure: 1978 },
        PointAndPressure { x: 74685, y: 49959, pressure: 2167 },
        PointAndPressure { x: 74679, y: 49964, pressure: 2458 },
        PointAndPressure { x: 74685, y: 49959, pressure: 2725 },
        PointAndPressure { x: 74685, y: 49953, pressure: 2842 },
        PointAndPressure { x: 74685, y: 49953, pressure: 2839 },
        PointAndPressure { x: 74690, y: 49953, pressure: 2765 },
        PointAndPressure { x: 74696, y: 49953, pressure: 2603 },
        PointAndPressure { x: 74702, y: 49959, pressure: 2424 },
        PointAndPressure { x: 74725, y: 49964, pressure: 2256 },
        PointAndPressure { x: 74776, y: 49970, pressure: 2029 },
        PointAndPressure { x: 74833, y: 49987, pressure: 1709 },
        PointAndPressure { x: 74890, y: 49999, pressure: 1490 },
        PointAndPressure { x: 74959, y: 50004, pressure: 1441 },
        PointAndPressure { x: 75005, y: 50050, pressure: 916 },
        PointAndPressure { x: 75073, y: 50056, pressure: 10 },
    ];
    assert(points@ =~= left_eye_spec());
    points
}

/// The points of the right eye.
pub open spec fn right_eye_spec() -> Seq<PointAndPressure> {
    seq![
        PointAndPressure { x: 75753, y: 50187, pressure: 1434 },
        PointAndPressure { x: 75765, y: 50181, pressure: 1502 },
        PointAndPressure { x: 75788, y: 50159, pressure: 1742 },
        PointAndPressure { x: 75788, y: 50147, pressure: 2113 },
        PointAndPressure { x: 75788, y: 50141, pressure: 2402 },
        PointAndPressure { x: 75793, y: 50136, pressure: 2544 },
        PointAndPressure { x: 75799, y: 50130, pressure: 2609 },
        PointAndPressure { x: 75799, y: 50124, pressure: 2640 },
        PointAndPressure { x: 75805, y: 50113, pressure: 2650 },
        PointAndPressure { x: 75816, y: 50107, pressure: 2638 },
        PointAndPressure { x: 75833, y: 50101, pressure: 2599 },
        PointAndPressure { x: 75845, y: 50090, pressure: 2532 },
        PointAndPressure { x: 75868, y: 50084, pressure: 2403 },
        PointAndPressure { x: 75896, y: 50067, pressure: 2113 },
        PointAndPressure { x: 75930, y: 50056, pressure: 1683 },
        PointAndPressure { x: 75890, y: 50113, pressure: 1229 },
        PointAndPressure { x: 75936, y: 50107, pressure: 7 },
    ]
}

/// The points of the right eye.
fn right_eye() -> (points: Vec<PointAndPressure>)
    ensures
        points@ == right_eye_spec(),
{
    let points = vec![
        PointAndPressure { x: 75753, y: 50187, pressure: 1434 },
        PointAndPressure { x: 75765, y: 50181, pressure: 1502 },
        PointAndPressure { x: 75788, y: 50159, pressure: 1742 },
        PointAndPressure { x: 75788, y: 50147, pressure: 2113 },
        PointAndPressure { x: 75788, y: 50141, pressure: 2402 },
        PointAndPressure { x: 75793, y: 50136, pressure: 2544 },
        PointAndPressure { x: 75799, y: 50130, pressure: 2609 },
        PointAndPressure { x: 75799, y: 50124, pressure: 2640 },
        PointAndPressure { x: 75805, y: 50113, pressure: 2650 },
        PointAndPressure { x: 75816, y: 50107, pressure: 2638 },
        PointAndPressure { x: 75833, y: 50101, pressure: 2599 },
        PointAndPressure { x: 75845, y: 50090, pressure: 2532 },
        PointAndPressure { x: 75868, y: 50084, pressure: 2403 },
        PointAndPressure { x: 75896, y: 50067, pressure: 2113 },
        PointAndPressure { x: 75930, y: 50056, pressure: 1683 },
        PointAndPressure { x: 75890, y: 50113, pressure: 1229 },
        PointAndPressure { x: 75936, y: 50107, pressure: 7 },
    ];
    assert(points@ =~= right_eye_spec());
    points
}

/// The points of the smile.
pub open spec fn smile_spec() -> Seq<PointAndPressure> {
    seq![
        PointAndPressure { x: 74628, y: 50821, pressure: 1298 },
        PointAndPressure { x: 74633, y: 50816, pressure: 1350 },
        PointAndPressure { x: 74639, y: 50804, pressure: 1389 },
        PointAndPressure { x: 74639, y: 50799, pressure: 1406 },
        PointAndPressure { x: 74633, y: 50781, pressure: 1417 },
        PointAndPressure { x: 74633, y: 50776, pressure: 1430 },
        PointAndPressure { x: 74633, y: 50776, pressure: 1452 },
        PointAndPressure { x: 74628, y: 50776, pressure: 1497 },
        PointAndPressure { x: 74622, y: 50781, pressure: 1574 },
        PointAndPressure { x: 74622, y: 50781, pressure: 1690 },
        PointAndPressure { x: 74622, y: 50787, pressure: 1838 },
        PointAndPressure { x: 74616, y: 50787, pressure: 1969 },
        PointAndPressure { x: 74610, y: 50799, pressure: 2036 },
        PointAndPressure { x: 74605, y: 50816, pressure: 2052 },
        PointAndPressure { x: 74593, y: 50827, pressure: 2056 },
        PointAndPressure { x: 74588, y: 50844, pressure: 2061 },
        PointAndPressure { x: 74582, y: 50867, pressure: 2061 },
        PointAndPressure { x: 74582, y: 50890, pressure: 2051 },
        PointAndPressure { x: 74576, y: 50913, pressure: 2033 },
        PointAndPressure { x: 74570, y: 50941, pressure: 2016 },
        PointAndPressure { x: 74570, y: 50964, pressure: 2005 },
        PointAndPressure { x: 74576, y: 50987, pressure: 1999 },
        PointAndPressure { x: 74576, y: 51004, pressure: 1994 },
        PointAndPressure { x: 74588, y: 51021, pressure: 1996 },
        PointAndPressure { x: 74599, y: 51044, pressure: 1992 },
        PointAndPressure { x: 74605, y: 51056, pressure: 1982 },
        PointAndPressure { x: 74622, y: 51073, pressure: 1988 },
        PointAndPressure { x: 74639, y: 51096, pressure: 2016 },
        PointAndPressure { x: 74668, y: 51124, pressure: 2052 },
        PointAndPressure { x: 74719, y: 51159, pressure: 2084 },
        PointAndPressure { x: 74759, y: 51187, pressure: 2109 },
        PointAndPressure { x: 74805, y: 51210, pressure: 2124 },
        PointAndPressure { x: 74845, y: 51233, pressure: 2130 },
        PointAndPressure { x: 74896, y: 51250, pressure: 2125 },
        PointAndPressure { x: 74953, y: 51261, pressure: 2114 },
        PointAndPressure { x: 75005, y: 51267, pressure: 2110 },
        PointAndPressure { x: 75068, y: 51273, pressure: 2112 },
        PointAndPressure { x: 75136, y: 51267, pressure: 2108 },
        PointAndPressure { x: 75210, y: 51250, pressure: 2096 },
        PointAndPressure { x: 75285, y: 51227, pressure: 2089 },
        PointAndPressure { x: 75359, y: 51199, pressure: 2084 },
        PointAndPressure { x: 75433, y: 51164, pressure: 2099 },
        PointAndPressure { x: 75508, y: 51119, pressure: 2121 },
        PointAndPressure { x: 75576, y: 51067, pressure: 2138 },
        PointAndPressure { x: 75639, y: 51021, pressure: 2149 },
        PointAndPressure { x: 75702, y: 50970, pressure: 2163 },
        PointAndPressure { x: 75776, y: 50919, pressure: 2183 },
        PointAndPressure { x: 75822, y: 50873, pressure: 2204 },
        PointAndPressure { x: 75850, y: 50839, pressure: 2225 },
        PointAndPressure { x: 75885, y: 50804, pressure: 2224 },
        PointAndPressure { x: 75902, y: 50776, pressure: 2221 },
        PointAndPressure { x: 75913, y: 50759, pressure: 2230 },
        PointAndPressure { x: 75925, y: 50753, pressure: 2243 },
        PointAndPressure { x: 75925, y: 50741, pressure: 2267 },
        PointAndPressure { x: 75925, y: 50730, pressure: 2309 },
        PointAndPressure { x: 75919, y: 50719, pressure: 2343 },
        PointAndPressure { x: 75919, y: 50701, pressure: 2358 },
        PointAndPressure { x: 75919, y: 50679, pressure: 2355 },
        PointAndPressure { x: 75913, y: 50656, pressure: 2321 },
        PointAndPressure { x: 75913, y: 50633, pressure: 2244 },
        PointAndPressure { x: 75913, y: 50621, pressure: 2102 },
        PointAndPressure { x: 75913, y: 50616, pressure: 1860 },
        PointAndPressure { x: 75908, y: 50616, pressure: 1588 },
        PointAndPressure { x: 75902, y: 50621, pressure: 1444 },
        PointAndPressure { x: 75959, y: 50576, pressure: 258 },
    ]
}

/// The points of the smile.
fn smile() -> (points: Vec<PointAndPressure>)
    ensures
        points@ == smile_spec(),
{
    let points = vec![
        PointAndPressure { x: 74628, y: 50821, pressure: 1298 },
        PointAndPressure { x: 74633, y: 50816, pressure: 1350 },
        PointAndPressure { x: 74639, y: 50804, pressure: 1389 },
        PointAndPressure { x: 74639, y: 50799, pressure: 1406 },
        PointAndPressure { x: 74633, y: 50781, pressure: 1417 },
        PointAndPressure { x: 74633, y: 50776, pressure: 1430 },
        PointAndPressure { x: 74633, y: 50776, pressure: 1452 },
        PointAndPressure { x: 74628, y: 50776, pressure: 1497 },
        PointAndPressure { x: 74622, y: 50781, pressure: 1574 },
        PointAndPressure { x: 74622, y: 50781, pressure: 1690 },
        PointAndPressure { x: 74622, y: 50787, pressure: 1838 },
        PointAndPressure { x: 74616, y: 50787, pressure: 1969 },
        PointAndPressure { x: 74610, y: 50799, pressure: 2036 },
        PointAndPressure { x: 74605, y: 50816, pressure: 2052 },
        PointAndPressure { x: 74593, y: 50827, pressure: 2056 },
        PointAndPressure { x: 74588, y: 50844, pressure: 2061 },
        PointAndPressure { x: 74582, y: 50867, pressure: 2061 },
        PointAndPressure { x: 74582, y: 50890, pressure: 2051 },
        PointAndPressure { x: 74576, y: 50913, pressure: 2033 },
        PointAndPressure { x: 74570, y: 50941, pressure: 2016 },
        PointAndPressure { x: 74570, y: 50964, pressure: 2005 },
        PointAndPressure { x: 74576, y: 50987, pressure: 1999 },
        PointAndPressure { x: 74576, y: 51004, pressure: 1994 },
        PointAndPressure { x: 74588, y: 51021, pressure: 1996 },
        PointAndPressure { x: 74599, y: 51044, pressure: 1992 },
        PointAndPressure { x: 74605, y: 51056, pressure: 1982 },
        PointAndPressure { x: 74622, y: 51073, pressure: 1988 },
        PointAndPressure { x: 74639, y: 51096, pressure: 2016 },
        PointAndPressure { x: 74668, y: 51124, pressure: 2052 },
        PointAndPressure { x: 74719, y: 51159, pressure: 2084 },
        PointAndPressure { x: 74759, y: 51187, pressure: 2109 },
        PointAndPressure { x: 74805, y: 51210, pressure: 2124 },
        PointAndPressure { x: 74845, y: 51233, pressure: 2130 },
        PointAndPressure { x: 74896, y: 51250, pressure: 2125 },
        PointAndPressure { x: 74953, y: 51261, pressure: 2114 },
        PointAndPressure { x: 75005, y: 51267, pressure: 2110 },
        PointAndPressure { x: 75068, y: 51273, pressure: 2112 },
        PointAndPressure { x: 75136, y: 51267, pressure: 2108 },
        PointAndPressure { x: 75210, y: 51250, pressure: 2096 },
        PointAndPressure { x: 75285, y: 51227, pressure: 2089 },
        PointAndPressure { x: 75359, y: 51199, pressure: 2084 },
        PointAndPressure { x: 75433, y: 51164, pressure: 2099 },
        PointAndPressure { x: 75508, y: 51119, pressure: 2121 },
        PointAndPressure { x: 75576, y: 51067, pressure: 2138 },
        PointAndPressure { x: 75639, y: 51021, pressure: 2149 },
        PointAndPressure { x: 75702, y: 50970, pressure: 2163 },
        PointAndPressure { x: 75776, y: 50919, pressure: 2183 },
        PointAndPressure { x: 75822, y: 50873, pressure: 2204 },
        PointAndPressure { x: 75850, y: 50839, pressure: 2225 },
        PointAndPressure { x: 75885, y: 50804, pressure: 2224 },
        PointAndPressure { x: 75902, y: 50776, pressure: 2221 },
        PointAndPressure { x: 75913, y: 50759, pressure: 2230 },
        PointAndPressure { x: 75925, y: 50753, pressure: 2243 },
        PointAndPressure { x: 75925, y: 50741, pressure: 2267 },
        PointAndPressure { x: 75925, y: 50730, pressure: 2309 },
        PointAndPressure { x: 75919, y: 50719, pressure: 2343 },
        PointAndPressure { x: 75919, y: 50701, pressure: 2358 },
        PointAndPressure { x: 75919, y: 50679, pressure: 2355 },
        PointAndPressure { x: 75913, y: 50656, pressure: 2321 },
        PointAndPressure { x: 75913, y: 50633, pressure: 2244 },
        PointAndPressure { x: 75913, y: 50621, pressure: 2102 },
        PointAndPressure { x: 75913, y: 50616, pressure: 1860 },
        PointAndPressure { x: 75908, y: 50616, pressure: 1588 },
        PointAndPressure { x: 75902, y: 50621, pressure: 1444 },
        PointAndPressure { x: 75959, y: 50576, pressure: 258 },
    ];
    assert(points@ =~= smile_spec());
    points
}

/// One stroke of the face.
fn part(points: Vec<PointAndPressure>, c: Color, step: u64) -> (stroke: Stroke)
    ensures
        stroke@ == (StrokeView { color: c, tip_size: 2, step, points: points@ }),
{
    let mut stroke = Stroke::default();
    stroke.set_points_and_pressure(&points);
    stroke.set_color(c);
    stroke.set_step(step);
    stroke
}

/// The face in the given ink, with the given pause between two segments:
/// the left eye, the right eye and the smile, each with a tip of size 2.
pub fn strokes_smileyface(c: Color, step: u64) -> (face: Strokes)
    ensures
        face@ == seq![
            StrokeView { color: c, tip_size: 2, step, points: left_eye_spec() },
            StrokeView { color: c, tip_size: 2, step, points: right_eye_spec() },
            StrokeView { color: c, tip_size: 2, step, points: smile_spec() },
        ],
{
    let mut strokes: Vec<Stroke> = Vec::new();
    strokes.push(part(left_eye(), c, step));
    strokes.push(part(right_eye(), c, step));
    strokes.push(part(smile(), c, step));
    let face = Strokes::from(strokes);
    assert(face@ =~= seq![
        StrokeView { color: c, tip_size: 2, step, points: left_eye_spec() },
        StrokeView { color: c, tip_size: 2, step, points: right_eye_spec() },
        StrokeView { color: c, tip_size: 2, step, points: smile_spec() },
    ]);
    face
}

} // verus!
