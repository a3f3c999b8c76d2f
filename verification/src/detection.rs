use vstd::prelude::*;
use crate::text::{
    decimal, decimal_string, decimal_value, digit_chars, lemma_decimal_digits, lemma_decimal_roundtrip,
};

verus! {

/// A drawing color, in the channel order of the image library: blue,
/// green, red, then alpha.
#[derive(Clone, Copy, PartialEq, Eq, Structural, Debug)]
pub struct Color {
    pub blue: i32,
    pub green: i32,
    pub red: i32,
    pub alpha: i32,
}

/// An axis-aligned rectangle in pixel coordinates.
#[derive(Clone, Copy, PartialEq, Eq, Structural, Debug)]
pub struct Rect {
    pub x: i32,
    pub y: i32,
    pub width: i32,
    pub height: i32,
}

/// A point in pixel coordinates.
#[derive(Clone, Copy, PartialEq, Eq, Structural, Debug)]
pub struct Point {
    pub x: i32,
    pub y: i32,
}

/// The size of a rendered text.
#[derive(Clone, Copy, PartialEq, Eq, Structural, Debug)]
pub struct Size {
    pub width: i32,
    pub height: i32,
}

/// The four colors detections are drawn in, one after the other by class.
pub open spec fn palette(k: int) -> Color {
    if k == 0 {
        Color { blue: 0, green: 255, red: 0, alpha: -1i32 }
    } else if k == 1 {
        Color { blue: 255, green: 255, red: 0, alpha: -1i32 }
    } else if k == 2 {
        Color { blue: 0, green: 255, red: 255, alpha: -1i32 }
    } else {
        Color { blue: 255, green: 0, red: 0, alpha: -1i32 }
    }
}

/// The color of the boxes of a class.
pub open spec fn spec_class_color(class: int) -> Color {
    palette(class % 4)
}

/// The color the boxes of class `class` are drawn in.
pub fn class_color(class: usize) -> (c: Color)
    ensures
        c == spec_class_color(class as int),
{
    match class % 4 {
        0 => Color { blue: 0, green: 255, red: 0, alpha: -1 },
        1 => Color { blue: 255, green: 255, red: 0, alpha: -1 },
        2 => Color { blue: 0, green: 255, red: 255, alpha: -1 },
        _ => Color { blue: 255, green: 0, red: 0, alpha: -1 },
    }
}

/// Classes four apart share a color.
pub proof fn lemma_class_color_period(class: nat)
    ensures
        spec_class_color(class + 4int) == spec_class_color(class as int),
{
    vstd::arithmetic::div_mod::lemma_mod_add_multiples_vanish(class as int, 4);
}

/// Where the label of a detection box is written: at the box's left edge,
/// five pixels above the text's baseline offset from the box's top.
pub fn label_origin(rect: Rect, baseline: i32) -> (p: Point)
    requires
        i32::MIN <= rect.y - baseline <= i32::MAX,
        i32::MIN <= rect.y - baseline - 5 <= i32::MAX,
    ensures
        p.x == rect.x,
        p.y == rect.y - baseline - 5,
{
    Point { x: rect.x, y: rect.y - baseline - 5 }
}

/// The filled banner behind the summary text: from the image's corner, as
/// wide as the text and ten pixels taller.
pub fn banner_rect(text: Size) -> (r: Rect)
    requires
        text.height + 10 <= i32::MAX,
    ensures
        r.x == 0,
        r.y == 0,
        r.width == text.width,
        r.height == text.height + 10,
{
    Rect { x: 0, y: 0, width: text.width, height: text.height + 10 }
}

/// Where the summary text is written: at the banner's left edge, five
/// pixels below the text's height.
pub fn banner_text_origin(text: Size) -> (p: Point)
    requires
        text.height + 5 <= i32::MAX,
    ensures
        p.x == 0,
        p.y == text.height + 5,
{
    Point { x: 0, y: text.height + 5 }
}

/// The summary text's origin lies inside its banner, five pixels above the
/// banner's bottom edge, for a text of non-negative height.
pub proof fn lemma_summary_inside_banner(text: Size)
    requires
        0 <= text.height,
        text.height + 10 <= i32::MAX,
    ensures
        0 <= text.height + 5 < text.height + 10,
        (text.height + 10) - (text.height + 5) == 5,
{
}

/// The summary written over each processed frame.
pub open spec fn summary_label(elapsed_us: nat, detected: nat) -> Seq<char> {
    "DNN Inference Time: "@ + decimal(elapsed_us) + " us - Detected: "@ + decimal(detected)
}

/// Writes the summary of a frame: how long the network ran, in
/// microseconds, and how many objects were kept.
pub fn summary_text(elapsed_us: u128, detected: usize) -> (s: String)
    ensures
        s@ == summary_label(elapsed_us as nat, detected as nat),
{
    let mut s = String::from_str("DNN Inference Time: ");
    let e = decimal_string(elapsed_us);
    s.append(e.as_str());
    s.append(" us - Detected: ");
    let d = decimal_string(detected as u128);
    s.append(d.as_str());
    s
}

/// A kept detection: its class, its position in that class's candidate
/// boxes, the box, and the color it is drawn in.
#[derive(Clone, Copy, PartialEq, Eq, Structural, Debug)]
pub struct Detection {
    pub class: usize,
    pub index: usize,
    pub rect: Rect,
    pub color: Color,
}

/// The detections of one class, in the order its kept indices list them.
pub open spec fn class_detections(class: int, boxes: Seq<Rect>, kept: Seq<i32>) -> Seq<Detection> {
    Seq::new(
        kept.len(),
        |k: int|
            Detection {
                class: class as usize,
                index: kept[k] as usize,
                rect: boxes[kept[k] as int],
                color: spec_class_color(class),
            },
    )
}

/// The detections of the first `n` classes, class by class.
pub open spec fn detections_upto(boxes: Seq<Vec<Rect>>, kept: Seq<Vec<i32>>, n: int) -> Seq<Detection>
    decreases n,
{
    if n <= 0 {
        Seq::empty()
    } else {
        detections_upto(boxes, kept, n - 1) + class_detections(n - 1, boxes[n - 1]@, kept[n - 1]@)
    }
}

/// How many indices the first `n` classes keep.
pub open spec fn kept_count(kept: Seq<Vec<i32>>, n: int) -> int
    decreases n,
{
    if n <= 0 {
        0
    } else {
        kept_count(kept, n - 1) + kept[n - 1]@.len()
    }
}

/// One list of candidate boxes and one list of kept indices per class, each
/// kept index naming one of its class's boxes.
pub open spec fn kept_indices_valid(boxes: Seq<Vec<Rect>>, kept: Seq<Vec<i32>>) -> bool {
    &&& boxes.len() == kept.len()
    &&& forall|c: int, k: int|
        0 <= c < kept.len() && 0 <= k < kept[c]@.len() ==> 0 <= #[trigger] kept[c]@[k] < boxes[c]@.len()
}

/// Lists the boxes to draw: for each class in turn, the boxes its kept
/// indices name, each with the class's color.
pub fn detections(boxes: &Vec<Vec<Rect>>, kept: &Vec<Vec<i32>>) -> (d: Vec<Detection>)
    requires
        kept_indices_valid(boxes@, kept@),
    ensures
        d@ == detections_upto(boxes@, kept@, boxes@.len() as int),
{
    let mut d: Vec<Detection> = Vec::new();
    let n = boxes.len();
    let mut c: usize = 0;
    while c < n
        invariant
            n == boxes@.len(),
            kept_indices_valid(boxes@, kept@),
            c <= n,
            d@ == detections_upto(boxes@, kept@, c as int),
        decreases n - c,
    {
        let color = class_color(c);
        let row = &kept[c];
        let class_boxes = &boxes[c];
        let m = row.len();
        let mut k: usize = 0;
        while k < m
            invariant
                n == boxes@.len(),
                kept_indices_valid(boxes@, kept@),
                c < n,
                m == row@.len(),
                row == &kept@[c as int],
                class_boxes == &boxes@[c as int],
                color == spec_class_color(c as int),
                k <= m,
                d@ == detections_upto(boxes@, kept@, c as int) + class_detections(
                    c as int,
                    class_boxes@,
                    row@,
                ).take(k as int),
            decreases m - k,
        {
            let i = row[k];
            assert(0 <= kept@[c as int]@[k as int] < boxes@[c as int]@.len());
            let det = Detection { class: c, index: i as usize, rect: class_boxes[i as usize], color };
            d.push(det);
            assert(class_detections(c as int, class_boxes@, row@).take(k + 1) =~= class_detections(
                c as int,
                class_boxes@,
                row@,
            ).take(k as int).push(det));
            k = k + 1;
        }
        assert(class_detections(c as int, class_boxes@, row@).take(m as int) =~= class_detections(
            c as int,
            class_boxes@,
            row@,
        ));
        c = c + 1;
    }
    d
}

/// As many boxes are drawn as the classes keep indices in all.
pub proof fn lemma_detections_count(boxes: Seq<Vec<Rect>>, kept: Seq<Vec<i32>>, n: int)
    requires
        0 <= n,
    ensures
        detections_upto(boxes, kept, n).len() == kept_count(kept, n),
    decreases n,
{
    if n > 0 {
        lemma_detections_count(boxes, kept, n - 1);
    }
}

/// A drawn detection of one of the first `n` classes: its box is the one its
/// class's candidates hold at its index, and it is drawn in its class's
/// color, the four colors (green, cyan, yellow, blue) taken in turn.
pub open spec fn drawn_as_its_class(boxes: Seq<Vec<Rect>>, n: int, d: Detection) -> bool {
    &&& 0 <= d.class < n
    &&& d.index < boxes[d.class as int]@.len()
    &&& d.rect == boxes[d.class as int]@[d.index as int]
    &&& d.class % 4 == 0 ==> d.color == (Color { blue: 0, green: 255, red: 0, alpha: -1i32 })
    &&& d.class % 4 == 1 ==> d.color == (Color { blue: 255, green: 255, red: 0, alpha: -1i32 })
    &&& d.class % 4 == 2 ==> d.color == (Color { blue: 0, green: 255, red: 255, alpha: -1i32 })
    &&& d.class % 4 == 3 ==> d.color == (Color { blue: 255, green: 0, red: 0, alpha: -1i32 })
}

/// Every box listed for drawing is a kept box of its own class, drawn in
/// that class's color (class `c` in the `c % 4`-th color), and the boxes are
/// listed class by class in increasing class order.
pub proof fn lemma_detections_colored_by_class(boxes: Seq<Vec<Rect>>, kept: Seq<Vec<i32>>, n: int)
    requires
        kept_indices_valid(boxes, kept),
        0 <= n <= boxes.len(),
        boxes.len() <= usize::MAX,
    ensures
        forall|i: int|
            0 <= i < detections_upto(boxes, kept, n).len() ==> drawn_as_its_class(
                boxes,
                n,
                #[trigger] detections_upto(boxes, kept, n)[i],
            ),
        forall|i: int, j: int|
            0 <= i < j < detections_upto(boxes, kept, n).len() ==> (#[trigger] detections_upto(
                boxes,
                kept,
                n,
            )[i]).class <= (#[trigger] detections_upto(boxes, kept, n)[j]).class,
    decreases n,
{
    if n > 0 {
        lemma_detections_colored_by_class(boxes, kept, n - 1);
        let prev = detections_upto(boxes, kept, n - 1);
        let cur = class_detections(n - 1, boxes[n - 1]@, kept[n - 1]@);
        let all = detections_upto(boxes, kept, n);
        assert(all == prev + cur);
        assert forall|i: int| 0 <= i < all.len() implies drawn_as_its_class(
            boxes,
            n,
            #[trigger] all[i],
        ) by {
            if i < prev.len() {
                assert(all[i] == prev[i]);
                assert(drawn_as_its_class(boxes, n - 1, prev[i]));
            } else {
                let k = i - prev.len();
                assert(all[i] == cur[k]);
                assert(0 <= kept[n - 1]@[k] < boxes[n - 1]@.len());
                let c = n - 1;
                assert(cur[k].class as int == c);
                if c % 4 == 0 {
                } else if c % 4 == 1 {
                } else if c % 4 == 2 {
                } else {
                }
            }
        }
        assert forall|i: int, j: int| 0 <= i < j < all.len() implies (#[trigger] all[i]).class <= (
        #[trigger] all[j]).class by {
            if j < prev.len() {
                assert(all[i] == prev[i] && all[j] == prev[j]);
            } else if i < prev.len() {
                assert(all[i] == prev[i]);
                assert(drawn_as_its_class(boxes, n - 1, prev[i]));
                assert(all[j] == cur[j - prev.len()]);
            } else {
                assert(all[i] == cur[i - prev.len()] && all[j] == cur[j - prev.len()]);
            }
        }
    }
}

/// The summary names the network's running time and the number of drawn
/// boxes, each written as plain decimal digits that read back as that
/// number.
pub proof fn lemma_summary_reports_counts(elapsed_us: nat, detected: nat)
    ensures
        exists|time: Seq<char>, count: Seq<char>|
            {
                &&& summary_label(elapsed_us, detected) == "DNN Inference Time: "@ + time
                    + " us - Detected: "@ + count
                &&& decimal_value(time) == elapsed_us
                &&& decimal_value(count) == detected
                &&& time.len() >= 1
                &&& count.len() >= 1
                &&& forall|i: int| 0 <= i < time.len() ==> digit_chars().contains(#[trigger] time[i])
                &&& forall|i: int| 0 <= i < count.len() ==> digit_chars().contains(#[trigger] count[i])
            },
{
    lemma_decimal_roundtrip(elapsed_us);
    lemma_decimal_roundtrip(detected);
    lemma_decimal_digits(elapsed_us);
    lemma_decimal_digits(detected);
    let time = decimal(elapsed_us);
    let count = decimal(detected);
    assert(summary_label(elapsed_us, detected) == "DNN Inference Time: "@ + time
        + " us - Detected: "@ + count);
}

} // verus!
