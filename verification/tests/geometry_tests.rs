use mini_renderer::point::{Point2, Point3};
use mini_renderer::triangle::Triangle;
use mini_renderer::triangle2::Triangle2;

#[test]
fn triangle_should_be_able_to_create_triangle() {
    let triangle = Triangle::new(Point3::new(0, 0, 0), Point3::new(0, 2, 0), Point3::new(2, 0, 0));
    assert_eq!(triangle.a, Point3::new(0, 0, 0));
    assert_eq!(triangle.b, Point3::new(0, 2, 0));
    assert_eq!(triangle.c, Point3::new(2, 0, 0));
}

#[test]
fn triangle_test_inside_point() {
    let inside_point = Point3::new(10, 3, 0);
    let outside_point_left = Point3::new(-3, 3, 0);
    let outside_point_right = Point3::new(16, 4, 0);
    let outside_point_down = Point3::new(5, -3, 0);
    let outside_point_up = Point3::new(4, 16, 0);
    let triangle = Triangle::new(
        Point3::new(0, 0, 0),
        Point3::new(10, 10, 0),
        Point3::new(14, 0, 0),
    );
    assert!(triangle.is_inside_point(inside_point));
    assert!(!triangle.is_inside_point(outside_point_left));
    assert!(!triangle.is_inside_point(outside_point_right));
    assert!(!triangle.is_inside_point(outside_point_down));
    assert!(!triangle.is_inside_point(outside_point_up));
}

#[test]
fn triangle_test_get_bounding_box() {
    let triangle = Triangle::new(
        Point3::new(0, 0, 0),
        Point3::new(10, 10, 0),
        Point3::new(14, -1, 0),
    );
    let bounding_box = triangle.get_bounding_box();
    assert_eq!(bounding_box.min_x(), 0);
    assert_eq!(bounding_box.min_y(), -1);
    assert_eq!(bounding_box.max_x(), 14);
    assert_eq!(bounding_box.max_y(), 10);
}

#[test]
fn triangle2_should_be_able_to_create_triangle() {
    let triangle = Triangle2::new(Point2::new(0, 0), Point2::new(0, 2), Point2::new(2, 0));
    assert_eq!(triangle.a, Point2::new(0, 0));
    assert_eq!(triangle.b, Point2::new(0, 2));
    assert_eq!(triangle.c, Point2::new(2, 0));
}

#[test]
fn triangle2_test_inside_point() {
    let inside_point = Point2::new(10, 3);
    let outside_point_left = Point2::new(-3, 3);
    let outside_point_right = Point2::new(16, 4);
    let outside_point_down = Point2::new(5, -3);
    let outside_point_up = Point2::new(4, 16);
    let triangle = Triangle2::new(
        Point2::new(0, 0),
        Point2::new(10, 10),
        Point2::new(14, 0),
    );
    assert!(triangle.is_inside_point(inside_point));
    assert!(!triangle.is_inside_point(outside_point_left));
    assert!(!triangle.is_inside_point(outside_point_right));
    assert!(!triangle.is_inside_point(outside_point_down));
    assert!(!triangle.is_inside_point(outside_point_up));
}

#[test]
fn triangle2_test_get_bounding_box() {
    let triangle = Triangle2::new(
        Point2::new(0, 0),
        Point2::new(10, 10),
        Point2::new(14, -1),
    );
    let bounding_box = triangle.get_bounding_box();
    assert_eq!(bounding_box.min_x(), 0);
    assert_eq!(bounding_box.min_y(), -1);
    assert_eq!(bounding_box.max_x(), 14);
    assert_eq!(bounding_box.max_y(), 10);
}

#[test]
fn bary_coords_have_exact_values() {
    let triangle = Triangle2::new(
        Point2::new(0, 0),
        Point2::new(10, 10),
        Point2::new(14, 0),
    );
    let bc = triangle.get_bary_coords(Point2::new(10, 3));
    assert_eq!(bc.den, -140);
    assert_eq!(bc.num_ab, -42);
    assert_eq!(bc.num_ac, -70);
}

#[test]
fn barycentric_weights_sum_to_denominator() {
    let triangle = Triangle2::new(
        Point2::new(0, 0),
        Point2::new(10, 10),
        Point2::new(14, 0),
    );
    let points = [
        Point2::new(10, 3),
        Point2::new(-3, 3),
        Point2::new(16, 4),
        Point2::new(5, -3),
        Point2::new(0, 0),
    ];
    let mut i: usize = 0;
    while i < points.len() {
        let p = points[i];
        let bc = triangle.get_bary_coords(p);
        let bx = triangle.b.x as i128;
        let by = triangle.b.y as i128;
        let cx = triangle.c.x as i128;
        let cy = triangle.c.y as i128;
        let px = p.x as i128;
        let py = p.y as i128;
        let num_rest = (bx - px) * (cy - py) - (cx - px) * (by - py);
        assert_eq!(bc.num_ab + bc.num_ac + num_rest, bc.den);
        i += 1;
    }
}

#[test]
fn degenerate_triangle_contains_no_point() {
    let triangle = Triangle2::new(
        Point2::new(1, 1),
        Point2::new(1, 1),
        Point2::new(1, 1),
    );
    assert!(!triangle.is_inside_point(Point2::new(1, 1)));
    let bb = triangle.get_bounding_box();
    assert_eq!(bb.min_x(), 1);
    assert_eq!(bb.max_x(), 1);
}

#[test]
fn interpolated_depth_takes_exact_values() {
    let triangle = Triangle::new(
        Point3::new(0, 0, 10),
        Point3::new(4, 0, 20),
        Point3::new(0, 4, 30),
    );
    assert_eq!(triangle.get_z_of_inside_point(Point2::new(0, 0)), 30);
    assert_eq!(triangle.get_z_of_inside_point(Point2::new(4, 0)), 10);
}
