//! Detection post-processing: from raw quantized network outputs to
//! published detections.
//!
//! The network itself runs on the device's accelerator and hands back raw
//! candidates in model-input coordinates. This module holds everything
//! after that call: confidence filtering, mapping class indices to species
//! labels, and rescaling bounding boxes from the model input frame to
//! full-resolution display coordinates.

use vstd::prelude::*;
use crate::{BoundingBox, Detection, MAX_LABEL_LEN};
use crate::geometry::{
    spec_scale_box, scale_box, MODEL_INPUT_WIDTH, MODEL_INPUT_HEIGHT, DISPLAY_WIDTH,
    DISPLAY_HEIGHT,
};
use crate::servo::spec_box_in_frame;

verus! {

/// Most detections a single frame can yield.
pub const DETECTIONS_MAX: usize = 8;

/// One raw candidate from the network: class index, confidence in
/// hundredths, and a bounding box in model-input coordinates.
#[derive(Clone, Copy, Debug, PartialEq, Eq, Structural)]
pub struct RawDetection {
    pub class_index: usize,
    pub confidence_centi: u8,
    pub bbox: BoundingBox,
}

/// The label for a class index: out-of-table indices map to "Unknown",
/// which the color lookup then resolves to the default gray.
pub open spec fn spec_label_of(labels: Seq<Seq<char>>, idx: int) -> Seq<char> {
    if 0 <= idx < labels.len() {
        labels[idx]
    } else {
        "Unknown"@
    }
}

/// A raw candidate survives post-processing when its confidence reaches
/// the threshold and its whole box lies inside the model input frame.
pub open spec fn spec_keep(r: RawDetection, threshold_centi: int) -> bool {
    &&& r.confidence_centi >= threshold_centi
    &&& r.confidence_centi <= 100
    &&& r.bbox.x + r.bbox.w <= MODEL_INPUT_WIDTH
    &&& r.bbox.y + r.bbox.h <= MODEL_INPUT_HEIGHT
}

/// What one surviving candidate becomes: its label, its confidence, and
/// its box rescaled to display coordinates.
pub open spec fn spec_publish(r: RawDetection, labels: Seq<Seq<char>>) -> (Seq<char>, u8, BoundingBox) {
    (
        spec_label_of(labels, r.class_index as int),
        r.confidence_centi,
        spec_scale_box(
            r.bbox,
            MODEL_INPUT_WIDTH as int,
            MODEL_INPUT_HEIGHT as int,
            DISPLAY_WIDTH as int,
            DISPLAY_HEIGHT as int,
        ),
    )
}

/// Post-processing of a whole frame's raw candidates: the published forms
/// of the surviving candidates, in their original order, before the
/// per-frame cap.
pub open spec fn spec_postprocess(
    raws: Seq<RawDetection>,
    labels: Seq<Seq<char>>,
    threshold_centi: int,
) -> Seq<(Seq<char>, u8, BoundingBox)>
    decreases raws.len(),
{
    if raws.len() == 0 {
        Seq::empty()
    } else {
        let front = spec_postprocess(raws.drop_last(), labels, threshold_centi);
        if spec_keep(raws.last(), threshold_centi) {
            front.push(spec_publish(raws.last(), labels))
        } else {
            front
        }
    }
}

/// What `detect` publishes for one frame: the surviving candidates in
/// order, cut off at the per-frame cap of `DETECTIONS_MAX`.
pub open spec fn spec_detect(
    raws: Seq<RawDetection>,
    labels: Seq<Seq<char>>,
    threshold_centi: int,
) -> Seq<(Seq<char>, u8, BoundingBox)> {
    let full = spec_postprocess(raws, labels, threshold_centi);
    if full.len() <= DETECTIONS_MAX {
        full
    } else {
        full.take(DETECTIONS_MAX as int)
    }
}

/// The loaded detector: its label table and its confidence threshold.
pub struct Model {
    labels: Vec<String>,
    confidence_threshold_centi: u8,
}

impl Model {
    /// The label table, as character sequences, in class-index order.
    pub closed spec fn labels_view(&self) -> Seq<Seq<char>> {
        self.labels@.map_values(|l: String| l@)
    }

    pub closed spec fn threshold(&self) -> int {
        self.confidence_threshold_centi as int
    }

    pub open spec fn wf(&self) -> bool {
        &&& self.threshold() <= 100
        &&& forall|i: int| 0 <= i < self.labels_view().len() ==> #[trigger] self.labels_view()[i]
            .len() <= MAX_LABEL_LEN
    }

    /// Bind a label table and a confidence threshold (in hundredths).
    pub fn new(labels: Vec<String>, confidence_threshold_centi: u8) -> (m: Model)
        requires
            confidence_threshold_centi <= 100,
            forall|i: int| 0 <= i < labels@.len() ==> #[trigger] labels@[i]@.len()
                <= MAX_LABEL_LEN,
        ensures
            m.wf(),
            m.labels_view() == labels@.map_values(|l: String| l@),
            m.threshold() == confidence_threshold_centi,
    {
        let m = Model { labels, confidence_threshold_centi };
        proof {
            assert forall|i: int| 0 <= i < m.labels_view().len() implies #[trigger] m
                .labels_view()[i].len() <= MAX_LABEL_LEN by {
                assert(m.labels_view()[i] == m.labels@[i]@);
            }
        }
        m
    }

    /// The label for a class index.
    pub fn label_of(&self, class_index: usize) -> (l: String)
        ensures
            l@ == spec_label_of(self.labels_view(), class_index as int),
    {
        if class_index < self.labels.len() {
            let l = self.labels[class_index].clone();
            proof {
                assert(self.labels_view()[class_index as int] == self.labels@[class_index as int]@);
            }
            l
        } else {
            "Unknown".to_owned()
        }
    }

    /// Turn one frame's raw network outputs into detections: filter by
    /// confidence, resolve labels, rescale boxes to display coordinates
    /// and stamp the frame's timestamp. Order is preserved, and one frame
    /// yields at most `DETECTIONS_MAX` detections.
    pub fn detect(&self, raws: &Vec<RawDetection>, timestamp_ms: u64) -> (dets: Vec<Detection>)
        requires
            self.wf(),
        ensures
            dets@.map_values(|d: Detection| (d.species@, d.confidence_centi, d.bbox))
                == spec_detect(raws@, self.labels_view(), self.threshold()),
            dets@.len() <= DETECTIONS_MAX,
            forall|i: int| 0 <= i < dets@.len() ==> #[trigger] dets@[i].timestamp_ms
                == timestamp_ms,
            forall|i: int| 0 <= i < dets@.len() ==> #[trigger] dets@[i].wf(),
            forall|i: int| 0 <= i < dets@.len() ==> spec_box_in_frame(#[trigger] dets@[i].bbox),
    {
        let mut dets: Vec<Detection> = Vec::new();
        let n = raws.len();
        let mut i: usize = 0;
        proof {
            assert(raws@.take(0) =~= Seq::<RawDetection>::empty());
        }
        while i < n
            invariant
                self.wf(),
                n == raws@.len(),
                i <= n,
                dets@.len() == ({
                    let full = spec_postprocess(
                        raws@.take(i as int),
                        self.labels_view(),
                        self.threshold(),
                    ).len();
                    if full <= DETECTIONS_MAX {
                        full
                    } else {
                        DETECTIONS_MAX as nat
                    }
                }),
                forall|k: int| 0 <= k < dets@.len() ==> (
                    #[trigger] dets@[k].species@,
                    dets@[k].confidence_centi,
                    dets@[k].bbox,
                ) == spec_postprocess(
                    raws@.take(i as int),
                    self.labels_view(),
                    self.threshold(),
                )[k],
                forall|k: int| 0 <= k < dets@.len() ==> #[trigger] dets@[k].timestamp_ms
                    == timestamp_ms,
                forall|k: int| 0 <= k < dets@.len() ==> #[trigger] dets@[k].wf(),
                forall|k: int| 0 <= k < dets@.len() ==> spec_box_in_frame(
                    #[trigger] dets@[k].bbox,
                ),
            decreases n - i,
        {
            let r = &raws[i];
            proof {
                assert(raws@.take(i + 1).drop_last() =~= raws@.take(i as int));
                assert(raws@.take(i + 1).last() == raws@[i as int]);
            }
            let keep = r.confidence_centi >= self.confidence_threshold_centi
                && r.confidence_centi <= 100
                && r.bbox.x as u32 + r.bbox.w as u32 <= MODEL_INPUT_WIDTH
                && r.bbox.y as u32 + r.bbox.h as u32 <= MODEL_INPUT_HEIGHT;
            if keep && dets.len() < DETECTIONS_MAX {
                let species = self.label_of(r.class_index);
                let display_box = scale_box(
                    &r.bbox,
                    MODEL_INPUT_WIDTH,
                    MODEL_INPUT_HEIGHT,
                    DISPLAY_WIDTH,
                    DISPLAY_HEIGHT,
                );
                let det = Detection {
                    species,
                    confidence_centi: r.confidence_centi,
                    bbox: display_box,
                    timestamp_ms,
                };
                proof {
                    reveal_strlit("Unknown");
                    assert(det.wf());
                    assert((det.species@, det.confidence_centi, det.bbox) == spec_publish(
                        raws@[i as int],
                        self.labels_view(),
                    ));
                }
                let ghost before = dets@;
                dets.push(det);
                proof {
                    let front = spec_postprocess(
                        raws@.take(i as int),
                        self.labels_view(),
                        self.threshold(),
                    );
                    let full = spec_postprocess(
                        raws@.take(i + 1),
                        self.labels_view(),
                        self.threshold(),
                    );
                    assert(spec_keep(raws@[i as int], self.threshold()));
                    assert(full == front.push(spec_publish(raws@[i as int], self.labels_view())));
                    assert forall|k: int| 0 <= k < dets@.len() implies (
                        #[trigger] dets@[k].species@,
                        dets@[k].confidence_centi,
                        dets@[k].bbox,
                    ) == full[k] by {
                        if k < dets@.len() - 1 {
                            assert(dets@[k] == before[k]);
                            assert((before[k].species@, before[k].confidence_centi, before[k].bbox)
                                == front[k]);
                            assert(full[k] == front[k]);
                        } else {
                            assert(dets@[k] == det);
                            assert(full[k] == spec_publish(raws@[i as int], self.labels_view()));
                        }
                    }
                }
            }
            i = i + 1;
        }
        proof {
            assert(raws@.take(n as int) =~= raws@);
            let published = spec_detect(raws@, self.labels_view(), self.threshold());
            assert(dets@.map_values(|d: Detection| (d.species@, d.confidence_centi, d.bbox))
                =~= published);
        }
        dets
    }
}

} // verus!
