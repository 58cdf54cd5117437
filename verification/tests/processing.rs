use rust_opencv::error::PipelineError;
use rust_opencv::image::{ImageShape, PixelType};
use rust_opencv::processing::basic_ops::{blur, canny, to_grayscale};
use rust_opencv::processing::color_ops::equalize_histogram;
use rust_opencv::processing::geometric_ops::{resize, rotate};
use rust_opencv::processing::{plan, Border, ColorConversion, Interpolation, Step, Transform};

fn shape(rows: i32, cols: i32, channels: i32) -> ImageShape {
    ImageShape { rows, cols, channels, pixel: PixelType::U8 }
}

fn typed(channels: i32, pixel: PixelType) -> ImageShape {
    ImageShape { rows: 4, cols: 5, channels, pixel }
}

fn gray() -> Transform {
    Transform::Grayscale { conversion: ColorConversion::BgrToGray }
}

fn gaussian(side: i32) -> Transform {
    Transform::Blur { kernel_width: side, kernel_height: side, border: Border::LibraryDefault }
}

fn scaling(width: i32, height: i32) -> Transform {
    Transform::Resize { width, height, interpolation: Interpolation::Linear }
}

fn turning(center_x: i32, center_y: i32, width: i32, height: i32) -> Transform {
    Transform::Rotate {
        center_x,
        center_y,
        width,
        height,
        interpolation: Interpolation::Linear,
        border: Border::Constant,
    }
}

const REFUSED: Result<Step, PipelineError> = Err(PipelineError::ProcessingError);

#[test]
fn a_buffer_without_rows_or_columns_is_empty() {
    assert!(shape(0, 0, 3).is_empty());
    assert!(shape(0, 10, 3).is_empty());
    assert!(shape(10, 0, 3).is_empty());
    assert!(shape(-1, 10, 1).is_empty());
    assert!(shape(10, -1, 1).is_empty());
    assert!(!shape(1, 1, 1).is_empty());
    assert!(!shape(100, 100, 3).is_empty());
    assert!(!shape(1, 1, 0).is_empty());
}

#[test]
fn grayscale_keeps_the_grid_and_leaves_one_channel() {
    let step = to_grayscale(&shape(100, 100, 3)).unwrap();
    assert_eq!(step.transform, gray());
    assert_eq!(step.expected, shape(100, 100, 1));
    let wide = to_grayscale(&shape(480, 640, 3)).unwrap();
    assert_eq!(wide.expected, shape(480, 640, 1));
    let tall = to_grayscale(&shape(7, 1, 3)).unwrap();
    assert_eq!(tall.expected, shape(7, 1, 1));
}

#[test]
fn grayscale_keeps_the_sample_type() {
    let input = ImageShape { rows: 4, cols: 5, channels: 3, pixel: PixelType::U16 };
    let step = to_grayscale(&input).unwrap();
    assert_eq!(step.expected, ImageShape { rows: 4, cols: 5, channels: 1, pixel: PixelType::U16 });
}

#[test]
fn equalisation_keeps_the_shape() {
    let step = equalize_histogram(&shape(100, 100, 1)).unwrap();
    assert_eq!(step.transform, Transform::Equalize);
    assert_eq!(step.expected, shape(100, 100, 1));
}

#[test]
fn blur_has_a_square_kernel_and_keeps_the_shape() {
    let step = blur(&shape(100, 100, 1), 5).unwrap();
    assert_eq!(step.transform, gaussian(5));
    assert_eq!(step.expected, shape(100, 100, 1));
    let small = blur(&shape(3, 9, 3), 3).unwrap();
    assert_eq!(small.transform, gaussian(3));
    assert_eq!(small.expected, shape(3, 9, 3));
}

#[test]
fn edge_detection_has_aperture_three_and_gives_an_edge_map() {
    let step = canny(&shape(100, 100, 1), 50, 150).unwrap();
    assert_eq!(
        step.transform,
        Transform::EdgeDetect { low: 50, high: 150, aperture: 3, l2_gradient: false }
    );
    assert_eq!(step.expected, shape(100, 100, 1));
    let colour = canny(&shape(20, 30, 3), 10, 20).unwrap();
    assert_eq!(colour.expected, shape(20, 30, 1));
}

#[test]
fn resize_gives_exactly_the_target_size() {
    let square = resize(&shape(100, 100, 1), 224, 224).unwrap();
    assert_eq!(square.transform, scaling(224, 224));
    assert_eq!(square.expected, shape(224, 224, 1));
    let wide = resize(&shape(10, 1000, 1), 224, 224).unwrap();
    assert_eq!(wide.expected, shape(224, 224, 1));
    let tall = resize(&shape(1000, 10, 3), 224, 224).unwrap();
    assert_eq!(tall.expected, shape(224, 224, 3));
}

#[test]
fn resize_takes_width_as_columns_and_height_as_rows() {
    let step = resize(&shape(100, 100, 1), 320, 200).unwrap();
    assert_eq!(step.transform, scaling(320, 200));
    assert_eq!(step.expected.cols, 320);
    assert_eq!(step.expected.rows, 200);
}

#[test]
fn rotation_turns_about_the_centre_and_keeps_the_shape() {
    let step = rotate(&shape(100, 100, 3)).unwrap();
    assert_eq!(step.transform, turning(50, 50, 100, 100));
    assert_eq!(step.expected, shape(100, 100, 3));
}

#[test]
fn the_centre_of_a_rotation_is_rounded_down() {
    let step = rotate(&shape(51, 101, 1)).unwrap();
    assert_eq!(step.transform, turning(50, 25, 101, 51));
    let dot = rotate(&shape(1, 1, 1)).unwrap();
    assert_eq!(dot.transform, turning(0, 0, 1, 1));
}

#[test]
fn no_transformation_is_planned_for_an_empty_buffer() {
    let empty = shape(0, 0, 3);
    assert_eq!(to_grayscale(&empty), Err(PipelineError::ProcessingError));
    assert_eq!(equalize_histogram(&empty), Err(PipelineError::ProcessingError));
    assert_eq!(blur(&empty, 5), Err(PipelineError::ProcessingError));
    assert_eq!(canny(&empty, 50, 150), Err(PipelineError::ProcessingError));
    assert_eq!(resize(&empty, 224, 224), Err(PipelineError::ProcessingError));
    assert_eq!(rotate(&empty), Err(PipelineError::ProcessingError));
    assert_eq!(to_grayscale(&shape(0, 5, 3)), Err(PipelineError::ProcessingError));
    assert_eq!(resize(&shape(5, 0, 3), 224, 224), Err(PipelineError::ProcessingError));
    assert_eq!(rotate(&shape(-3, 4, 1)), Err(PipelineError::ProcessingError));
}

#[test]
fn a_result_of_the_expected_shape_is_passed_on() {
    let step = to_grayscale(&shape(100, 100, 3)).unwrap();
    assert_eq!(step.accept(&shape(100, 100, 1)), Ok(shape(100, 100, 1)));
}

#[test]
fn a_result_of_another_shape_is_refused() {
    let step = to_grayscale(&shape(100, 100, 3)).unwrap();
    assert_eq!(step.accept(&shape(100, 100, 3)), Err(PipelineError::ProcessingError));
    assert_eq!(step.accept(&shape(100, 99, 1)), Err(PipelineError::ProcessingError));
    assert_eq!(step.accept(&shape(99, 100, 1)), Err(PipelineError::ProcessingError));
    assert_eq!(step.accept(&shape(0, 0, 1)), Err(PipelineError::ProcessingError));
    let other = ImageShape { rows: 100, cols: 100, channels: 1, pixel: PixelType::F32 };
    assert_eq!(step.accept(&other), Err(PipelineError::ProcessingError));
}

#[test]
fn an_empty_result_is_refused_even_where_it_is_expected() {
    let flat = Step { transform: Transform::Equalize, expected: shape(5, 0, 1) };
    assert_eq!(flat.accept(&shape(5, 0, 1)), Err(PipelineError::ProcessingError));
    let none = Step { transform: scaling(0, 0), expected: shape(0, 0, 1) };
    assert_eq!(none.accept(&shape(0, 0, 1)), Err(PipelineError::ProcessingError));
}

#[test]
fn gray_is_made_of_three_channels_only() {
    assert_eq!(to_grayscale(&shape(2, 2, 1)), REFUSED);
    assert_eq!(to_grayscale(&shape(2, 2, 2)), REFUSED);
    assert_eq!(to_grayscale(&shape(2, 2, 4)), REFUSED);
    assert_eq!(to_grayscale(&shape(2, 2, 0)), REFUSED);
    assert_eq!(to_grayscale(&shape(2, 2, -3)), REFUSED);
    assert!(to_grayscale(&shape(2, 2, 3)).is_ok());
}

#[test]
fn gray_is_made_of_three_kinds_of_samples_only() {
    assert!(to_grayscale(&typed(3, PixelType::U8)).is_ok());
    assert!(to_grayscale(&typed(3, PixelType::U16)).is_ok());
    assert!(to_grayscale(&typed(3, PixelType::F32)).is_ok());
    assert_eq!(to_grayscale(&typed(3, PixelType::I8)), REFUSED);
    assert_eq!(to_grayscale(&typed(3, PixelType::I16)), REFUSED);
    assert_eq!(to_grayscale(&typed(3, PixelType::I32)), REFUSED);
    assert_eq!(to_grayscale(&typed(3, PixelType::F64)), REFUSED);
    assert_eq!(to_grayscale(&typed(3, PixelType::Other)), REFUSED);
}

#[test]
fn only_one_channel_of_bytes_is_equalised() {
    assert!(equalize_histogram(&shape(2, 2, 1)).is_ok());
    assert_eq!(equalize_histogram(&shape(2, 2, 3)), REFUSED);
    assert_eq!(equalize_histogram(&shape(2, 2, 2)), REFUSED);
    assert_eq!(equalize_histogram(&shape(2, 2, 0)), REFUSED);
    assert_eq!(equalize_histogram(&typed(1, PixelType::I8)), REFUSED);
    assert_eq!(equalize_histogram(&typed(1, PixelType::U16)), REFUSED);
    assert_eq!(equalize_histogram(&typed(1, PixelType::F32)), REFUSED);
    assert_eq!(equalize_histogram(&typed(3, PixelType::F32)), REFUSED);
}

#[test]
fn a_blur_kernel_is_positive_and_odd() {
    let img = shape(5, 5, 1);
    for side in [1, 3, 5, 7, 31, i32::MAX] {
        assert_eq!(blur(&img, side).unwrap().transform, gaussian(side));
    }
    for side in [0, 2, 4, 6, 100, -1, -3, -4, i32::MIN, i32::MAX - 1] {
        assert_eq!(blur(&img, side), REFUSED);
    }
}

#[test]
fn a_blur_takes_five_kinds_of_samples() {
    for pixel in [PixelType::U8, PixelType::U16, PixelType::I16, PixelType::F32, PixelType::F64] {
        assert_eq!(blur(&typed(3, pixel), 5).unwrap().expected, typed(3, pixel));
    }
    for pixel in [PixelType::I8, PixelType::I32, PixelType::Other] {
        assert_eq!(blur(&typed(3, pixel), 5), REFUSED);
    }
}

#[test]
fn a_blur_kernel_must_be_odd_both_ways() {
    let img = shape(5, 5, 1);
    let lopsided = |w: i32, h: i32| Transform::Blur {
        kernel_width: w,
        kernel_height: h,
        border: Border::LibraryDefault,
    };
    assert!(plan(lopsided(3, 5), &img).is_ok());
    assert_eq!(plan(lopsided(3, 4), &img), REFUSED);
    assert_eq!(plan(lopsided(4, 3), &img), REFUSED);
    assert_eq!(plan(lopsided(0, 3), &img), REFUSED);
    assert_eq!(plan(lopsided(3, -1), &img), REFUSED);
}

#[test]
fn edges_are_looked_for_in_bytes_only() {
    assert!(canny(&typed(1, PixelType::U8), 50, 150).is_ok());
    assert!(canny(&typed(3, PixelType::U8), 50, 150).is_ok());
    for pixel in [
        PixelType::I8,
        PixelType::U16,
        PixelType::I16,
        PixelType::I32,
        PixelType::F32,
        PixelType::F64,
        PixelType::Other,
    ] {
        assert_eq!(canny(&typed(1, pixel), 50, 150), REFUSED);
    }
}

#[test]
fn a_target_size_is_positive_both_ways() {
    let img = shape(2, 2, 1);
    assert!(resize(&img, 1, 1).is_ok());
    assert!(resize(&img, i32::MAX, 1).is_ok());
    assert_eq!(resize(&img, 0, 224), REFUSED);
    assert_eq!(resize(&img, 224, 0), REFUSED);
    assert_eq!(resize(&img, 0, 0), REFUSED);
    assert_eq!(resize(&img, -1, 224), REFUSED);
    assert_eq!(resize(&img, 224, -224), REFUSED);
    assert_eq!(resize(&img, i32::MIN, i32::MIN), REFUSED);
}

#[test]
fn a_rotation_needs_a_target_size_too() {
    let img = shape(4, 6, 3);
    assert!(plan(turning(3, 2, 6, 4), &img).is_ok());
    assert_eq!(plan(turning(3, 2, 8, 2), &img).unwrap().expected, shape(2, 8, 3));
    assert_eq!(plan(turning(3, 2, 0, 4), &img), REFUSED);
    assert_eq!(plan(turning(3, 2, 6, -1), &img), REFUSED);
    assert_eq!(plan(turning(3, 2, 6, 4), &shape(0, 6, 3)), REFUSED);
}

#[test]
fn a_plan_is_what_the_named_function_gives() {
    let colour = shape(10, 20, 3);
    let mono = shape(10, 20, 1);
    assert_eq!(plan(gray(), &colour), to_grayscale(&colour));
    assert_eq!(plan(gray(), &mono), to_grayscale(&mono));
    assert_eq!(plan(Transform::Equalize, &mono), equalize_histogram(&mono));
    assert_eq!(plan(Transform::Equalize, &colour), equalize_histogram(&colour));
    assert_eq!(plan(gaussian(5), &mono), blur(&mono, 5));
    assert_eq!(plan(gaussian(4), &mono), blur(&mono, 4));
    assert_eq!(plan(scaling(224, 224), &mono), resize(&mono, 224, 224));
    assert_eq!(plan(scaling(0, 224), &mono), resize(&mono, 0, 224));
    assert_eq!(plan(turning(10, 5, 20, 10), &colour), rotate(&colour));
    let edges = Transform::EdgeDetect { low: 50, high: 150, aperture: 3, l2_gradient: false };
    assert_eq!(plan(edges, &mono), canny(&mono, 50, 150));
}
