//! Values that are lent to draw handlers.
//!
//! What they hold belongs to the drawing library, and is only carried.
use vstd::prelude::*;

verus! {

/// An image handed around as a boxed value.
#[derive(Debug)]
pub struct SkiaImage<I>(I);

impl<I> View for SkiaImage<I> {
    type V = I;

    closed spec fn view(&self) -> I {
        self.0
    }
}

impl<I> SkiaImage<I> {
    pub fn new(image: I) -> (boxed: Self)
        ensures
            boxed@ == image,
    {
        Self(image)
    }

    pub fn into_inner(self) -> (image: I)
        ensures
            image == self@,
    {
        self.0
    }
}

impl<I: Clone> Clone for SkiaImage<I> {
    /// Boxes a clone of the image.
    fn clone(&self) -> (boxed: Self)
        ensures
            call_ensures(I::clone, (&self@,), boxed@),
    {
        Self(self.0.clone())
    }
}

impl<I> core::ops::Deref for SkiaImage<I> {
    type Target = I;

    fn deref(&self) -> (image: &I)
        ensures
            *image == self@,
    {
        &self.0
    }
}

impl<I> From<I> for SkiaImage<I> {
    fn from(image: I) -> (boxed: Self) {
        Self(image)
    }
}

impl<I> vstd::std_specs::convert::FromSpecImpl<I> for SkiaImage<I> {
    open spec fn obeys_from_spec() -> bool {
        true
    }

    closed spec fn from_spec(image: I) -> Self {
        SkiaImage(image)
    }
}

/// Boxing an image and taking it out again gives it back.
pub proof fn law_boxed_image_is_given_back<I>(image: I)
    ensures
        <SkiaImage<I> as vstd::std_specs::convert::FromSpec<I>>::from_spec(image)@ == image,
{
}

/// A clone of a boxed image holds a clone of the image: the image itself, where
/// cloning gives that.
pub proof fn law_cloned_image_is_given_back<I: Clone>(boxed: SkiaImage<I>, other: SkiaImage<I>)
    requires
        call_ensures(SkiaImage::<I>::clone, (&boxed,), other),
    ensures
        call_ensures(I::clone, (&boxed@,), other@),
        (forall|image: I| #[trigger] call_ensures(I::clone, (&boxed@,), image) ==> image == boxed@)
            ==> other@ == boxed@,
{
}

/// A canvas lent to a draw handler for the time of one call.
#[derive(Debug)]
pub struct SkiaCanvas<'a, C>(&'a C);

impl<'a, C> View for SkiaCanvas<'a, C> {
    type V = C;

    closed spec fn view(&self) -> C {
        *self.0
    }
}

impl<'a, C> SkiaCanvas<'a, C> {
    pub fn new(canvas: &'a C) -> (boxed: Self)
        ensures
            boxed@ == *canvas,
    {
        Self(canvas)
    }

    pub fn as_ref(&self) -> (canvas: &C)
        ensures
            *canvas == self@,
    {
        self.0
    }
}

impl<'a, C> Clone for SkiaCanvas<'a, C> {
    /// Lends the same canvas.
    fn clone(&self) -> (boxed: Self)
        ensures
            boxed@ == self@,
    {
        Self(self.0)
    }
}

/// A rendering context lent to a draw handler, where there is one. It is held by
/// whatever reaches it: a handle of it may be cloned, a borrow may not.
#[derive(Debug)]
pub struct SkiaContext<D>(Option<D>);

impl<D> View for SkiaContext<D> {
    type V = Option<D>;

    closed spec fn view(&self) -> Option<D> {
        self.0
    }
}

impl<D> SkiaContext<D> {
    pub fn new(context: Option<D>) -> (boxed: Self)
        ensures
            boxed@ == context,
    {
        Self(context)
    }

    pub fn is_some(&self) -> (b: bool)
        ensures
            b == (self@ is Some),
    {
        self.0.is_some()
    }

    pub fn is_none(&self) -> (b: bool)
        ensures
            b == (self@ is None),
    {
        self.0.is_none()
    }

    /// What reaches the context, for as long as nothing else uses it.
    pub fn as_mut(&mut self) -> (r: Option<&mut D>)
        ensures
            r is Some == old(self)@ is Some,
            r matches Some(context) ==> *context == old(self)@->0 && final(self)@ == Some(
                *final(context),
            ),
            r is None ==> final(self)@ is None,
    {
        match &mut self.0 {
            Some(context) => Some(context),
            None => None,
        }
    }
}

impl<D: Clone> Clone for SkiaContext<D> {
    /// Lends the same context, where there is one.
    fn clone(&self) -> (boxed: Self)
        ensures
            boxed@ is Some == self@ is Some,
            self@ matches Some(context) ==> call_ensures(D::clone, (&context,), boxed@->0),
    {
        match &self.0 {
            Some(context) => Self(Some(context.clone())),
            None => Self(None),
        }
    }
}

/// A boxed context, and a clone of it, tell whether there is a context.
pub proof fn law_boxed_context_tells_whether_there_is_one<D: Clone>(
    context: Option<D>,
    boxed: SkiaContext<D>,
    other: SkiaContext<D>,
    answers: (bool, bool),
    other_answers: (bool, bool),
)
    requires
        call_ensures(SkiaContext::<D>::new, (context,), boxed),
        call_ensures(SkiaContext::<D>::is_some, (&boxed,), answers.0),
        call_ensures(SkiaContext::<D>::is_none, (&boxed,), answers.1),
        call_ensures(SkiaContext::<D>::clone, (&boxed,), other),
        call_ensures(SkiaContext::<D>::is_some, (&other,), other_answers.0),
        call_ensures(SkiaContext::<D>::is_none, (&other,), other_answers.1),
    ensures
        answers.0 <==> context is Some,
        answers.1 == !answers.0,
        other_answers == answers,
{
}

/// A buffer lent to a draw handler for the time of one call.
#[derive(Debug)]
pub struct BufferRef<'a, B>(&'a B);

impl<'a, B> View for BufferRef<'a, B> {
    type V = B;

    closed spec fn view(&self) -> B {
        *self.0
    }
}

impl<'a, B> BufferRef<'a, B> {
    pub fn new(buffer: &'a B) -> (boxed: Self)
        ensures
            boxed@ == *buffer,
    {
        Self(buffer)
    }

    pub fn as_ref(&self) -> (buffer: &B)
        ensures
            *buffer == self@,
    {
        self.0
    }
}

impl<'a, B> Clone for BufferRef<'a, B> {
    /// Lends the same buffer.
    fn clone(&self) -> (boxed: Self)
        ensures
            boxed@ == self@,
    {
        Self(self.0)
    }
}

/// What is boxed is what is lent and given back: an image, a canvas and a buffer.
pub proof fn law_boxed_values_are_lent<I, C, B>(
    image: I,
    boxed_image: SkiaImage<I>,
    seen: &I,
    given_back: I,
    canvas: &C,
    boxed_canvas: SkiaCanvas<'_, C>,
    other_canvas: SkiaCanvas<'_, C>,
    lent_canvas: &C,
    buffer: &B,
    boxed_buffer: BufferRef<'_, B>,
    other_buffer: BufferRef<'_, B>,
    lent_buffer: &B,
)
    requires
        call_ensures(SkiaImage::<I>::new, (image,), boxed_image),
        call_ensures(<SkiaImage<I> as core::ops::Deref>::deref, (&boxed_image,), seen),
        call_ensures(SkiaImage::<I>::into_inner, (boxed_image,), given_back),
        call_ensures(SkiaCanvas::<'_, C>::new, (canvas,), boxed_canvas),
        call_ensures(SkiaCanvas::<'_, C>::clone, (&boxed_canvas,), other_canvas),
        call_ensures(SkiaCanvas::<'_, C>::as_ref, (&other_canvas,), lent_canvas),
        call_ensures(BufferRef::<'_, B>::new, (buffer,), boxed_buffer),
        call_ensures(BufferRef::<'_, B>::clone, (&boxed_buffer,), other_buffer),
        call_ensures(BufferRef::<'_, B>::as_ref, (&other_buffer,), lent_buffer),
    ensures
        given_back == image && *seen == image,
        *lent_canvas == *canvas,
        *lent_buffer == *buffer,
{
}

/// What reaches a boxed context is lent where there is one, and what is changed through it
/// is changed in the box.
pub proof fn law_lent_context_is_changed_in_place<D>(
    boxed: &mut SkiaContext<D>,
    context: Option<D>,
    r: Option<&mut D>,
)
    requires
        call_ensures(SkiaContext::<D>::new, (context,), *boxed),
        call_ensures(SkiaContext::<D>::as_mut, (boxed,), r),
    ensures
        r is Some <==> context is Some,
        r matches Some(lent) ==> *lent == context->0 && final(boxed)@ == Some(*final(lent)),
        r is None ==> final(boxed)@ is None,
{
}

/// An image that is turned into a boxed one is the one that is given back.
pub proof fn law_converted_image_is_given_back<I>(image: I, boxed: SkiaImage<I>, given_back: I)
    requires
        call_ensures(<SkiaImage<I> as From<I>>::from, (image,), boxed),
        call_ensures(SkiaImage::<I>::into_inner, (boxed,), given_back),
    ensures
        given_back == image,
{
}

} // verus!
