use fna3d::PresentInterval;

// The FNA3D C library is not part of this crate, so its linked version cannot be asked for.
// This only checks that a test binary links against this crate and a call into it answers.
#[test]
fn lib_test_link() {
    let v = PresentInterval::Default.to_u32();
    println!("present interval value: {}", v);
}
