use into_ext::prelude::IntoExt;
use into_ext::prelude::TryFrom;
use into_ext::prelude::TryInto;
use into_ext::prelude::TryIntoExt;

#[test]
fn prelude_brings_both_extension_traits_into_scope() {
    let x: i32 = 42;
    assert_eq!(x.into_::<Option<i32>>(), Some(42));
    let z = x.try_into_::<u8>();
    assert_eq!(z, Ok(42u8));
}

#[test]
fn prelude_re_exports_the_standard_fallible_traits() {
    assert_eq!(u8::try_from(42i32), Ok(42u8));
    let r: Result<u8, _> = TryInto::<u8>::try_into(300i32);
    assert!(r.is_err());
}
