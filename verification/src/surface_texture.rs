use vstd::prelude::*;
use core::cmp::Ordering;
use vstd::std_specs::cmp::PartialEqSpec;
use vstd::std_specs::cmp::PartialOrdSpec;

verus! {

/// Handle of the texture behind a surface frame.
///
/// Two handles name the same texture exactly when their `id`s are equal: the id
/// stands for the identity of the backend resource that the handle refers to.
#[derive(Clone, Copy, Debug, PartialEq, Eq, Structural, Hash)]
pub struct Texture {
    pub id: u64,
}

/// Surface texture that can be rendered to.
/// Result of a successful acquisition of the surface's current texture.
#[derive(Debug, Eq)]
pub struct SurfaceTexture {
    /// Accessible view of the frame.
    pub texture: Texture,
    presented: bool,
}

/// What a surface texture is, seen from outside: the texture it holds and
/// whether ownership of it was committed to presentation.
pub struct FrameState {
    pub texture: Texture,
    pub presented: bool,
}

/// What has to happen to the backend's hold on a surface texture when the
/// texture is dropped.
#[derive(Clone, Copy, Debug, PartialEq, Eq, Structural)]
pub enum DropAction {
    /// The texture was handed to presentation, which owns it from then on.
    Nothing,
    /// Best effort while the thread is panicking: only release the reference to
    /// the frame's acquire semaphore.
    Release,
    /// Give the unpresented texture back to the surface.
    Discard,
}

impl FrameState {
    /// The action that dropping a texture in this state calls for.
    pub open spec fn drop_action(self, thread_panicking: bool) -> DropAction {
        if self.presented {
            DropAction::Nothing
        } else if thread_panicking {
            DropAction::Release
        } else {
            DropAction::Discard
        }
    }

    /// The state after ownership of the texture was committed to presentation.
    pub open spec fn after_presentation(self) -> FrameState {
        FrameState { texture: self.texture, presented: true }
    }
}

impl View for SurfaceTexture {
    type V = FrameState;

    closed spec fn view(&self) -> FrameState {
        FrameState { texture: self.texture, presented: self.presented }
    }
}

impl Clone for SurfaceTexture {
    /// A copy of the frame: same texture, same presentation state. Each copy
    /// answers for its own drop.
    fn clone(&self) -> (r: SurfaceTexture)
        ensures
            r@ == self@,
    {
        SurfaceTexture { texture: self.texture, presented: self.presented }
    }
}

impl SurfaceTexture {
    /// A freshly acquired, not yet presented texture.
    pub fn new(texture: Texture) -> (st: SurfaceTexture)
        ensures
            st@ == (FrameState { texture, presented: false }),
    {
        SurfaceTexture { texture, presented: false }
    }

    /// Accessible view of the frame.
    pub fn texture(&self) -> (t: Texture)
        ensures
            t == self@.texture,
    {
        self.texture
    }

    /// Commits ownership of the texture to presentation. From here on the
    /// presentation owns the frame, whatever becomes of it.
    pub fn commit_presentation(&mut self)
        ensures
            final(self)@ == old(self)@.after_presentation(),
    {
        self.presented = true;
    }

    /// What dropping this texture must do, given whether the dropping thread is
    /// panicking: nothing once it was presented; otherwise release it while the
    /// thread panics, and discard it in every other case.
    pub fn drop_action(&self, thread_panicking: bool) -> (action: DropAction)
        ensures
            action == self@.drop_action(thread_panicking),
            self@.presented ==> action == DropAction::Nothing,
            !self@.presented && thread_panicking ==> action == DropAction::Release,
            !self@.presented && !thread_panicking ==> action == DropAction::Discard,
    {
        if !self.presented {
            if thread_panicking {
                DropAction::Release
            } else {
                DropAction::Discard
            }
        } else {
            DropAction::Nothing
        }
    }
}

// A surface texture is identified by its texture alone: equality and ordering
// look at the texture's id and at nothing else.

impl PartialEq for SurfaceTexture {
    fn eq(&self, other: &Self) -> (r: bool) {
        self.texture.id == other.texture.id
    }
}

impl vstd::std_specs::cmp::PartialEqSpecImpl for SurfaceTexture {
    open spec fn obeys_eq_spec() -> bool {
        true
    }

    open spec fn eq_spec(&self, other: &SurfaceTexture) -> bool {
        self@.texture.id == other@.texture.id
    }
}

impl PartialOrd for SurfaceTexture {
    fn partial_cmp(&self, other: &Self) -> (r: Option<Ordering>) {
        if self.texture.id < other.texture.id {
            Some(Ordering::Less)
        } else if self.texture.id == other.texture.id {
            Some(Ordering::Equal)
        } else {
            Some(Ordering::Greater)
        }
    }
}

impl vstd::std_specs::cmp::PartialOrdSpecImpl for SurfaceTexture {
    open spec fn obeys_partial_cmp_spec() -> bool {
        true
    }

    open spec fn partial_cmp_spec(&self, other: &SurfaceTexture) -> Option<Ordering> {
        if self@.texture.id < other@.texture.id {
            Some(Ordering::Less)
        } else if self@.texture.id == other@.texture.id {
            Some(Ordering::Equal)
        } else {
            Some(Ordering::Greater)
        }
    }
}

/// Result of an attempt to acquire the surface's current texture.
///
/// See variant documentation for how to handle each case.
#[derive(Debug)]
pub enum CurrentSurfaceTexture {
    /// Successfully acquired a surface texture with no issues.
    Success(SurfaceTexture),
    /// Successfully acquired a surface texture, but texture no longer matches the
    /// properties of the underlying surface. It's highly recommended to configure
    /// the surface again for optimal performance.
    Suboptimal(SurfaceTexture),
    /// A timeout was encountered while trying to acquire the next frame.
    ///
    /// Applications should skip the current frame and try again later.
    Timeout,
    /// The window is occluded (e.g. minimized or behind another window).
    ///
    /// Applications should skip the current frame and try again once the window
    /// is no longer occluded.
    Occluded,
    /// The underlying surface has changed, and therefore the surface
    /// configuration is outdated.
    ///
    /// Configure the surface and try again.
    Outdated,
    /// The surface has been lost and needs to be recreated.
    ///
    /// If the device as a whole is lost, then you need to recreate the device and
    /// all resources. Otherwise, recreate the surface, then configure it, and try
    /// again.
    Lost,
    /// A validation error inside the acquisition was raised and caught by an
    /// error scope or by the handler of uncaptured errors.
    ///
    /// Applications should attend to the validation error and try again.
    Validation,
}

/// Once ownership of a texture is committed to presentation, dropping it
/// neither discards nor releases it, whether or not the dropping thread is
/// panicking; committing once more changes nothing.
pub proof fn lemma_committed_texture_is_left_to_presentation(state: FrameState, thread_panicking: bool)
    ensures
        state.after_presentation().drop_action(thread_panicking) == DropAction::Nothing,
        state.after_presentation().after_presentation() == state.after_presentation(),
        state.after_presentation().texture == state.texture,
{
}

/// Committing a texture to presentation does not change its identity: the
/// presented texture is equal to, and orders equal with, the one it was.
pub proof fn lemma_presentation_keeps_identity(before: SurfaceTexture, after: SurfaceTexture)
    requires
        after@ == before@.after_presentation(),
    ensures
        before.eq_spec(&after),
        after.eq_spec(&before),
        before.partial_cmp_spec(&after) == Some(Ordering::Equal),
{
}

/// Surface textures are totally ordered by their textures' ids, and that order
/// agrees with equality: any two compare, they compare equal exactly when they
/// are equal, the order is antisymmetric, and it is transitive.
pub proof fn lemma_identity_is_a_total_order(a: SurfaceTexture, b: SurfaceTexture, c: SurfaceTexture)
    ensures
        a.partial_cmp_spec(&b) is Some,
        (a.partial_cmp_spec(&b) == Some(Ordering::Equal)) == a.eq_spec(&b),
        a.eq_spec(&b) == b.eq_spec(&a),
        (a.partial_cmp_spec(&b) == Some(Ordering::Less)) == (b.partial_cmp_spec(&a) == Some(Ordering::Greater)),
        a.partial_cmp_spec(&b) == Some(Ordering::Less) && b.partial_cmp_spec(&c) == Some(Ordering::Less)
            ==> a.partial_cmp_spec(&c) == Some(Ordering::Less),
        a.eq_spec(&b) && b.eq_spec(&c) ==> a.eq_spec(&c),
{
}

/// Two surface textures are equal exactly when they hold the same texture:
/// equality of frames is the identity of their textures, whatever their
/// presentation states.
pub proof fn lemma_equal_exactly_when_same_texture(a: SurfaceTexture, b: SurfaceTexture)
    ensures
        a.eq_spec(&b) <==> a@.texture == b@.texture,
        a.eq_spec(&b) <==> a@.texture.id == b@.texture.id,
{
}

/// Surface textures are ordered as the ids of their textures: the first is
/// less, equal or greater exactly when its texture's id is less than, equal
/// to or greater than the other's.
pub proof fn lemma_ordered_as_texture_ids(a: SurfaceTexture, b: SurfaceTexture)
    ensures
        a@.texture.id < b@.texture.id <==> a.partial_cmp_spec(&b) == Some(Ordering::Less),
        a@.texture.id == b@.texture.id <==> a.partial_cmp_spec(&b) == Some(Ordering::Equal),
        a@.texture.id > b@.texture.id <==> a.partial_cmp_spec(&b) == Some(Ordering::Greater),
{
}

} // verus!
