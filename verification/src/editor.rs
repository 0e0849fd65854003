//! The editor's lifecycle.
//!
//! At any time the editor is in one of four states with respect to the
//! render pipeline: nothing is selected, an image is being loaded, a
//! pipeline is ready, or loading failed. At most one pipeline exists, and
//! it belongs to one image. The state changes only through the events
//! below; the slow work between them (decoding the RAW file, building the
//! GPU pipeline) is done by the caller, who is told what to start.

use vstd::prelude::*;
use crate::data::Image;
use crate::edit::EditParams;

verus! {

/// The two modules of the application.
#[derive(Debug, Clone, Copy, PartialEq, Eq, Structural)]
pub enum AppTab {
    /// Browse, import and organise images.
    Library,
    /// Edit the selected image.
    Develop,
}

/// State of the editor with respect to the render pipeline. `P` is the
/// pipeline as its owner holds it.
#[derive(Debug, Clone)]
pub enum EditorStatus<P> {
    /// No image is selected.
    NoSelection,
    /// The RAW data of this image is being loaded, or its pipeline built.
    Loading(i64),
    /// The pipeline of this image is ready to render.
    Ready(i64, P),
    /// Loading this image failed, for the reason given.
    Failed(i64, String),
}

impl<P> EditorStatus<P> {
    /// The image `image_id` is loaded or being loaded, so that nothing has
    /// to be started for it.
    pub open spec fn holds(&self, image_id: i64) -> bool {
        match self {
            EditorStatus::Loading(id) => *id == image_id,
            EditorStatus::Ready(id, _) => *id == image_id,
            _ => false,
        }
    }

    /// True when showing `image_id` takes a new load: unless this very
    /// image is ready or already being loaded.
    pub fn needs_load(&self, image_id: i64) -> (needed: bool)
        ensures
            needed == !self.holds(image_id),
    {
        match self {
            EditorStatus::Ready(id, _) => *id != image_id,
            EditorStatus::Loading(id) => *id != image_id,
            _ => true,
        }
    }
}

/// At most one image is loaded or being loaded at a time: a state that
/// holds one image holds no other.
pub proof fn lemma_single_authority<P>(status: EditorStatus<P>, a: i64, b: i64)
    requires
        status.holds(a),
        status.holds(b),
    ensures
        a == b,
{
}

/// `i` is the position of the first image with identifier `image_id`.
pub open spec fn is_first_with_id(images: Seq<Image>, image_id: i64, i: int) -> bool {
    &&& 0 <= i < images.len()
    &&& images[i].id == image_id
    &&& forall|j: int| 0 <= j < i ==> images[j].id != image_id
}

/// No image has the identifier `image_id`.
pub open spec fn has_no_image(images: Seq<Image>, image_id: i64) -> bool {
    forall|j: int| 0 <= j < images.len() ==> images[j].id != image_id
}

/// Position of the first image with identifier `image_id`.
pub fn find_image(images: &Vec<Image>, image_id: i64) -> (found: Option<usize>)
    ensures
        match found {
            Some(i) => is_first_with_id(images@, image_id, i as int),
            None => has_no_image(images@, image_id),
        },
{
    let mut i: usize = 0;
    while i < images.len()
        invariant
            i <= images.len(),
            forall|j: int| 0 <= j < i ==> images@[j].id != image_id,
        decreases images.len() - i,
    {
        if images[i].id == image_id {
            return Some(i);
        }
        i = i + 1;
    }
    None
}

/// The identifier of the image after the current one, wrapping from the
/// last to the first. `None` when the current image is not in the list.
pub fn next_image_id(images: &Vec<Image>, current_id: i64) -> (next: Option<i64>)
    ensures
        has_no_image(images@, current_id) ==> next is None,
        forall|i: int|
            is_first_with_id(images@, current_id, i) ==> next == Some(
                images@[(i + 1) % (images@.len() as int)].id,
            ),
{
    match find_image(images, current_id) {
        Some(i) => {
            let n = images.len();
            let j: usize = if i + 1 == n { 0 } else { i + 1 };
            assert(j == (i + 1) % (n as int)) by {
                if i + 1 == n {
                    assert((i + 1) % (n as int) == 0) by (nonlinear_arith)
                        requires i + 1 == n, n > 0;
                } else {
                    assert((i + 1) % (n as int) == i + 1) by (nonlinear_arith)
                        requires 0 <= i + 1 < n;
                }
            }
            assert forall|k: int| is_first_with_id(images@, current_id, k) implies k == i by {
                if k < i {
                    assert(images@[k].id != current_id);
                } else if i < k {
                    assert(images@[i as int].id != current_id);
                }
            }
            Some(images[j].id)
        },
        None => None,
    }
}

/// The identifier of the image before the current one, wrapping from the
/// first to the last. `None` when the current image is not in the list.
pub fn previous_image_id(images: &Vec<Image>, current_id: i64) -> (previous: Option<i64>)
    ensures
        has_no_image(images@, current_id) ==> previous is None,
        forall|i: int|
            is_first_with_id(images@, current_id, i) ==> previous == Some(
                images@[if i == 0 { images@.len() - 1 } else { i - 1 }].id,
            ),
{
    match find_image(images, current_id) {
        Some(i) => {
            let j: usize = if i == 0 { images.len() - 1 } else { i - 1 };
            assert forall|k: int| is_first_with_id(images@, current_id, k) implies k == i by {
                if k < i {
                    assert(images@[k].id != current_id);
                } else if i < k {
                    assert(images@[i as int].id != current_id);
                }
            }
            Some(images[j].id)
        },
        None => None,
    }
}

/// What the editor knows between two events.
#[derive(Debug, Clone)]
pub struct Editor<P> {
    /// The selected image, if any.
    pub selected_image_id: Option<i64>,
    /// The active module.
    pub current_tab: AppTab,
    /// The edit parameters of the selected image.
    pub current_edit_params: EditParams,
    /// True while the unedited image is shown for comparison.
    pub show_before: bool,
    /// State of the render pipeline.
    pub status: EditorStatus<P>,
}

impl<P> Editor<P> {
    /// The image that a result which just arrived is taken to belong to.
    pub open spec fn subject(&self) -> i64 {
        match self.selected_image_id {
            Some(id) => id,
            None => 0,
        }
    }

    /// Loading `image_id` is to be started: the Develop module is active,
    /// the image is neither ready nor being loaded, and it is in the
    /// library.
    pub open spec fn starts_load(&self, images: Seq<Image>, image_id: i64) -> bool {
        &&& self.current_tab == AppTab::Develop
        &&& !self.status.holds(image_id)
        &&& !has_no_image(images, image_id)
    }

    /// The editor at start-up: the Library module, nothing selected.
    pub fn new() -> (editor: Editor<P>)
        ensures
            editor.selected_image_id is None,
            editor.current_tab == AppTab::Library,
            editor.current_edit_params == EditParams::neutral(),
            !editor.show_before,
            editor.status is NoSelection,
    {
        Editor {
            selected_image_id: None,
            current_tab: AppTab::Library,
            current_edit_params: EditParams::new(),
            show_before: false,
            status: EditorStatus::NoSelection,
        }
    }

    /// Starts loading `image_id` where that is due; see [`Editor::starts_load`].
    fn begin_load(&mut self, images: &Vec<Image>, image_id: i64) -> (raw_path: Option<String>)
        ensures
            final(self).selected_image_id == old(self).selected_image_id,
            final(self).current_tab == old(self).current_tab,
            final(self).current_edit_params == old(self).current_edit_params,
            final(self).show_before == old(self).show_before,
            old(self).starts_load(images@, image_id) ==> {
                &&& final(self).status == EditorStatus::<P>::Loading(image_id)
                &&& exists|i: int|
                    is_first_with_id(images@, image_id, i) && raw_path == Some(images@[i].path)
            },
            !old(self).starts_load(images@, image_id) ==> {
                &&& final(self).status == old(self).status
                &&& raw_path is None
            },
    {
        if self.current_tab == AppTab::Develop && self.status.needs_load(image_id) {
            if let Some(i) = find_image(images, image_id) {
                self.status = EditorStatus::Loading(image_id);
                return Some(images[i].path.clone());
            }
        }
        None
    }

    /// The user selected `image_id`. Selecting is instant; loading starts
    /// only in the Develop module, and only when this image is not the one
    /// that is ready or being loaded. Returns the path of the RAW file to
    /// load, if loading is to start.
    pub fn select_image(&mut self, images: &Vec<Image>, image_id: i64) -> (raw_path: Option<String>)
        ensures
            final(self).selected_image_id == Some(image_id),
            final(self).current_tab == old(self).current_tab,
            final(self).current_edit_params == old(self).current_edit_params,
            final(self).show_before == old(self).show_before,
            old(self).starts_load(images@, image_id) ==> {
                &&& final(self).status == EditorStatus::<P>::Loading(image_id)
                &&& exists|i: int|
                    is_first_with_id(images@, image_id, i) && raw_path == Some(images@[i].path)
            },
            !old(self).starts_load(images@, image_id) ==> {
                &&& final(self).status == old(self).status
                &&& raw_path is None
            },
    {
        self.selected_image_id = Some(image_id);
        self.begin_load(images, image_id)
    }

    /// The user switched to the module `tab`. Entering the Develop module
    /// with an image selected starts loading it, unless it is the one that
    /// is ready or being loaded. Returns the path of the RAW file to load,
    /// if loading is to start.
    pub fn change_tab(&mut self, images: &Vec<Image>, tab: AppTab) -> (raw_path: Option<String>)
        ensures
            final(self).current_tab == tab,
            final(self).selected_image_id == old(self).selected_image_id,
            final(self).current_edit_params == old(self).current_edit_params,
            final(self).show_before == old(self).show_before,
            match old(self).selected_image_id {
                Some(image_id) if tab == AppTab::Develop && !old(self).status.holds(image_id)
                    && !has_no_image(images@, image_id) => {
                    &&& final(self).status == EditorStatus::<P>::Loading(image_id)
                    &&& exists|i: int|
                        is_first_with_id(images@, image_id, i) && raw_path == Some(
                            images@[i].path,
                        )
                },
                _ => {
                    &&& final(self).status == old(self).status
                    &&& raw_path is None
                },
            },
    {
        self.current_tab = tab;
        match self.selected_image_id {
            Some(image_id) => self.begin_load(images, image_id),
            None => None,
        }
    }

    /// The RAW data arrived, or loading it failed. On success returns the
    /// image that the pipeline is to be built for; the state stays as it
    /// is until the pipeline is there. On failure the state is `Failed`.
    pub fn raw_data_loaded(&mut self, outcome: Result<(), String>) -> (build_for: Option<i64>)
        ensures
            final(self).selected_image_id == old(self).selected_image_id,
            final(self).current_tab == old(self).current_tab,
            final(self).current_edit_params == old(self).current_edit_params,
            final(self).show_before == old(self).show_before,
            match outcome {
                Ok(_) => {
                    &&& final(self).status == old(self).status
                    &&& build_for == Some(old(self).subject())
                },
                Err(reason) => {
                    &&& final(self).status == EditorStatus::<P>::Failed(old(self).subject(), reason)
                    &&& build_for is None
                },
            },
    {
        let subject = match self.selected_image_id {
            Some(id) => id,
            None => 0,
        };
        match outcome {
            Ok(_) => Some(subject),
            Err(reason) => {
                self.status = EditorStatus::Failed(subject, reason);
                None
            },
        }
    }

    /// The pipeline of image `image_id` was built, or building it failed.
    /// A pipeline that arrives replaces whatever state there was: it is the
    /// only one from now on.
    pub fn pipeline_ready(&mut self, image_id: i64, outcome: Result<P, String>)
        ensures
            final(self).selected_image_id == old(self).selected_image_id,
            final(self).current_tab == old(self).current_tab,
            final(self).current_edit_params == old(self).current_edit_params,
            final(self).show_before == old(self).show_before,
            match outcome {
                Ok(pipeline) => final(self).status == EditorStatus::Ready(image_id, pipeline),
                Err(reason) => final(self).status == EditorStatus::<P>::Failed(
                    old(self).subject(),
                    reason,
                ),
            },
    {
        match outcome {
            Ok(pipeline) => {
                self.status = EditorStatus::Ready(image_id, pipeline);
            },
            Err(reason) => {
                let subject = match self.selected_image_id {
                    Some(id) => id,
                    None => 0,
                };
                self.status = EditorStatus::Failed(subject, reason);
            },
        }
    }

    /// The parameters to render with: the neutral ones while the unedited
    /// image is shown for comparison, the current ones otherwise.
    pub fn params_to_render(&self) -> (params: EditParams)
        ensures
            params == if self.show_before {
                EditParams::neutral()
            } else {
                self.current_edit_params
            },
    {
        if self.show_before {
            EditParams::new()
        } else {
            self.current_edit_params
        }
    }

    /// Switches between the edited image and the unedited one.
    pub fn toggle_before_after(&mut self)
        ensures
            final(self).show_before == !old(self).show_before,
            final(self).selected_image_id == old(self).selected_image_id,
            final(self).current_tab == old(self).current_tab,
            final(self).current_edit_params == old(self).current_edit_params,
            final(self).status == old(self).status,
    {
        self.show_before = !self.show_before;
    }

    /// Takes every adjustment back. Returns the image whose stored edits
    /// are to be discarded, if one is selected.
    pub fn reset_edits(&mut self) -> (image_id: Option<i64>)
        ensures
            final(self).current_edit_params == EditParams::neutral(),
            image_id == old(self).selected_image_id,
            final(self).selected_image_id == old(self).selected_image_id,
            final(self).current_tab == old(self).current_tab,
            final(self).show_before == old(self).show_before,
            final(self).status == old(self).status,
    {
        self.current_edit_params.reset();
        self.selected_image_id
    }
}

/// Two presses of the button that are less than this many milliseconds
/// apart are a double click.
pub const DOUBLE_CLICK_MS: u128 = 300;

/// True when a press of the button is the second of a double click, which
/// resets the view. `since_last` is the time in milliseconds since the
/// press before it; `None` where there was none.
pub fn is_double_click(since_last: Option<u128>) -> (double: bool)
    ensures
        double == (since_last matches Some(ms) && ms < DOUBLE_CLICK_MS),
{
    match since_last {
        Some(ms) => ms < DOUBLE_CLICK_MS,
        None => false,
    }
}

/// State of a drag with the pointer. `P` is a position on the canvas.
#[derive(Debug, Clone, Default)]
pub struct DragState<P> {
    /// True while the button is held down.
    pub is_dragging: bool,
    /// Where the pointer was when it was last looked at during the drag.
    pub last_position: Option<P>,
}

impl<P> DragState<P> {
    /// The state while nothing is dragged.
    pub fn new() -> (state: DragState<P>)
        ensures
            !state.is_dragging,
            state.last_position is None,
    {
        DragState { is_dragging: false, last_position: None }
    }

    /// The button went down. A drag starts where the pointer is over the
    /// canvas; outside it the press is not for the canvas. Returns whether
    /// the press was taken.
    pub fn press(&mut self, position: Option<P>) -> (taken: bool)
        ensures
            taken == position is Some,
            match position {
                Some(p) => final(self).is_dragging && final(self).last_position == Some(p),
                None => *final(self) == *old(self),
            },
    {
        match position {
            Some(p) => {
                self.is_dragging = true;
                self.last_position = Some(p);
                true
            },
            None => false,
        }
    }

    /// The button went up: the drag is over.
    pub fn release(&mut self)
        ensures
            !final(self).is_dragging,
            final(self).last_position is None,
    {
        self.is_dragging = false;
        self.last_position = None;
    }

    /// The pointer moved to `position`. During a drag that has a last
    /// position, returns that last position, from which the pan is
    /// measured, and remembers the new one. In every other case nothing
    /// changes and nothing is returned.
    pub fn moved(&mut self, position: Option<P>) -> (from: Option<P>)
        ensures
            match (old(self).is_dragging, position, old(self).last_position) {
                (true, Some(p), Some(last)) => {
                    &&& from == Some(last)
                    &&& final(self).is_dragging
                    &&& final(self).last_position == Some(p)
                },
                _ => from is None && *final(self) == *old(self),
            },
    {
        if !self.is_dragging {
            return None;
        }
        match position {
            Some(p) => {
                if self.last_position.is_some() {
                    let last = self.last_position.take();
                    self.last_position = Some(p);
                    last
                } else {
                    None
                }
            },
            None => None,
        }
    }
}

} // verus!
