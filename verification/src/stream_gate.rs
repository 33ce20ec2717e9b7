use vstd::prelude::*;
use crate::stream_layout::Area;

verus! {

/// The hand-off of a watched stream's frames to the worker that scales them: the newest
/// frame not yet handed over, the area the stream is drawn in, and whether the worker is
/// busy with a frame. At most one frame is with the worker at a time, and frames that
/// arrive meanwhile replace each other.
pub struct StreamGate<F> {
    pub latest: Option<F>,
    pub area: Option<Area>,
    pub busy: bool,
}

/// The hand-off after an attempt to give the worker a frame, and the frame given with its
/// area: nothing while the worker is busy; nothing, the frame being dropped, before the
/// area is known; nothing, the frame being kept, while the area is under two cells in
/// either direction; else the newest frame, the worker then being busy.
pub open spec fn dispatched<F>(g: StreamGate<F>) -> (StreamGate<F>, Option<(F, Area)>) {
    if g.busy {
        (g, None)
    } else {
        match g.area {
            None => (StreamGate { latest: None, ..g }, None),
            Some(a) => match g.latest {
                None => (g, None),
                Some(f) => if a.width < 2 || a.height < 2 {
                    (g, None)
                } else {
                    (StreamGate { latest: None, busy: true, ..g }, Some((f, a)))
                },
            },
        }
    }
}

impl<F> StreamGate<F> {
    /// No frame, no area, the worker idle.
    pub fn new() -> (r: Self)
        ensures
            r.latest is None,
            r.area is None,
            !r.busy,
    {
        StreamGate { latest: None, area: None, busy: false }
    }

    fn dispatch(&mut self) -> (r: Option<(F, Area)>)
        ensures
            (*final(self), r) == dispatched(*old(self)),
    {
        if self.busy {
            return None;
        }
        let latest = self.latest.take();
        match (self.area, latest) {
            (Some(area), Some(img)) => {
                if area.width < 2 || area.height < 2 {
                    self.latest = Some(img);
                    None
                } else {
                    self.busy = true;
                    Some((img, area))
                }
            },
            _ => None,
        }
    }

    /// A new frame arrives: it becomes the newest, and is handed over when it can be (see
    /// [`dispatched`]).
    pub fn update_frame(&mut self, img: F) -> (r: Option<(F, Area)>)
        ensures
            (*final(self), r) == dispatched(StreamGate { latest: Some(img), ..*old(self) }),
    {
        self.latest = Some(img);
        self.dispatch()
    }

    /// The stream is drawn in `area`: when that changed, it is recorded and a waiting frame
    /// is handed over when it can be; else nothing happens.
    pub fn set_area(&mut self, area: Area) -> (r: Option<(F, Area)>)
        ensures
            old(self).area == Some(area) ==> *final(self) == *old(self) && r is None,
            old(self).area != Some(area) ==> (*final(self), r) == dispatched(StreamGate { area: Some(area), ..*old(self) }),
    {
        let same = match self.area {
            Some(a) => a == area,
            None => false,
        };
        if same {
            return None;
        }
        self.area = Some(area);
        self.dispatch()
    }

    /// The worker was polled: when it gave back at least one scaled frame it is idle again,
    /// and a waiting frame is handed over when it can be; else nothing happens.
    pub fn finished(&mut self, got: bool) -> (r: Option<(F, Area)>)
        ensures
            !got ==> *final(self) == *old(self) && r is None,
            got ==> (*final(self), r) == dispatched(StreamGate { busy: false, ..*old(self) }),
    {
        if !got {
            return None;
        }
        self.busy = false;
        self.dispatch()
    }
}

/// Frames never reach the worker while it is busy with one.
pub proof fn law_one_frame_at_a_time<F>(g: StreamGate<F>)
    requires
        g.busy,
    ensures
        dispatched(g).1 is None,
        dispatched(g).0 == g,
{
}

/// A frame handed over leaves the worker busy and nothing waiting.
pub proof fn law_handed_frame_is_newest<F>(g: StreamGate<F>)
    requires
        dispatched(g).1 is Some,
    ensures
        dispatched(g).1 == Some((g.latest->0, g.area->0)),
        dispatched(g).0.busy,
        dispatched(g).0.latest is None,
{
}

} // verus!
