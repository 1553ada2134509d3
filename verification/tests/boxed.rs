use gstplugins::skia::{BufferRef, SkiaCanvas, SkiaContext, SkiaImage};

#[test]
fn image_is_given_back() {
    let image = SkiaImage::new(String::from("pixels"));
    assert_eq!(image.len(), 6);
    assert_eq!(image.into_inner(), "pixels");

    let image: SkiaImage<u8> = SkiaImage::from(7);
    assert_eq!(*image, 7);
    assert_eq!(image.clone().into_inner(), 7);
}

#[test]
fn canvas_is_lent() {
    let canvas = vec![1, 2, 3];
    let boxed = SkiaCanvas::new(&canvas);
    assert_eq!(boxed.as_ref(), &canvas);
    assert!(std::ptr::eq(boxed.clone().as_ref(), &canvas));
}

#[test]
fn context_is_lent_for_drawing() {
    let mut context = 5u32;
    let mut boxed = SkiaContext::new(Some(&mut context));
    assert!(boxed.is_some());
    assert!(!boxed.is_none());
    if let Some(context) = boxed.as_mut() {
        **context += 1;
    }
    assert_eq!(context, 6);

    let mut boxed: SkiaContext<u32> = SkiaContext::new(None);
    assert!(boxed.is_none());
    assert!(!boxed.is_some());
    assert!(boxed.as_mut().is_none());
}

#[test]
fn cloned_contexts_answer_alike() {
    let handle = SkiaContext::new(Some(7u64));
    let mut other = handle.clone();
    assert!(other.is_some());
    assert!(!other.is_none());
    assert_eq!(other.as_mut().copied(), Some(7));
    let none: SkiaContext<u64> = SkiaContext::new(None);
    assert!(none.clone().is_none());
    assert!(!none.clone().is_some());
}

#[test]
fn buffer_is_lent() {
    let buffer = String::from("buffer");
    let boxed = BufferRef::new(&buffer);
    assert_eq!(boxed.as_ref(), "buffer");
    assert!(std::ptr::eq(boxed.clone().as_ref(), &buffer));
}
