use win_win::class::{terminate, ClassPointer};
use win_win::window::CW_USEDEFAULT;
use win_win::{pointer_or_null, Error, Handle, WindowBuilder, WindowClass, WindowClassBuilder, WindowProc};

struct Silent;

impl WindowProc for Silent {
    fn window_proc(&self, _hwnd: Handle, _msg: u32, _wparam: usize, _lparam: isize) -> Option<isize> {
        None
    }
}

fn wide(text: &str) -> Vec<u16> {
    text.encode_utf16().collect()
}

#[test]
fn pointer_or_null_is_nothing_for_an_empty_slice() {
    assert_eq!(pointer_or_null(&[]), None);
}

#[test]
fn pointer_or_null_is_the_slice_otherwise() {
    let units = [0x68u16, 0x69, 0];
    assert_eq!(pointer_or_null(&units), Some(&units[..]));
    assert_eq!(pointer_or_null(&[0]), Some(&[0u16][..]));
}

#[test]
fn terminate_appends_one_zero() {
    assert_eq!(terminate(Vec::new()), vec![0]);
    assert_eq!(terminate(vec![0x72, 0x75, 0x73, 0x74]), vec![0x72, 0x75, 0x73, 0x74, 0]);
    assert_eq!(terminate(vec![0x41, 0]), vec![0x41, 0, 0]);
}

#[test]
fn the_use_default_coordinate_is_the_smallest_integer() {
    assert_eq!(CW_USEDEFAULT, i32::MIN);
    assert_eq!(CW_USEDEFAULT as u32, 0x8000_0000);
}

#[test]
fn a_dialog_needs_thirty_extra_bytes() {
    assert_eq!(WindowClassBuilder::DLGWINDOWEXTRA, 30);
}

#[test]
fn a_class_from_a_name_is_that_name_terminated() {
    assert_eq!(WindowClass::from_name(wide("rust")), WindowClass::Name(vec![0x72, 0x75, 0x73, 0x74, 0]));
    assert_eq!(WindowClass::from_name(Vec::new()), WindowClass::Name(vec![0]));
}

#[test]
fn a_class_is_taken_by_its_atom_or_its_units() {
    match WindowClass::Atom(0xC123).as_lpcwstr() {
        ClassPointer::Word(word) => assert_eq!(word, 0xC123),
        ClassPointer::Units(_) => panic!("an atom is no name"),
    }
    let class = WindowClass::from_name(wide("ab"));
    match class.as_lpcwstr() {
        ClassPointer::Units(units) => assert_eq!(units, &[0x61, 0x62, 0][..]),
        ClassPointer::Word(_) => panic!("a name is no atom"),
    }
}

#[test]
fn a_new_class_builder_has_only_its_name() {
    let builder = WindowClass::builder(wide("rust"));
    let registration = builder.registration();
    assert_eq!(registration.style, 0);
    assert_eq!(registration.cls_extra, 0);
    assert_eq!(registration.wnd_extra, 0);
    assert_eq!(registration.instance, Handle::null());
    assert_eq!(registration.icon, Handle::null());
    assert_eq!(registration.cursor, Handle::null());
    assert_eq!(registration.background, Handle::null());
    assert_eq!(registration.menu_name, None);
    assert_eq!(registration.class_name, &[0x72, 0x75, 0x73, 0x74, 0][..]);
    assert_eq!(registration.small_icon, Handle::null());
}

#[test]
fn a_class_builder_hands_over_what_was_set() {
    let builder = WindowClass::builder(wide("c"))
        .class_style(0x0003)
        .wnd_extra_bytes(WindowClassBuilder::DLGWINDOWEXTRA)
        .instance(Handle::from_raw(0x400000))
        .icon(Handle::from_raw(11))
        .small_icon(Handle::from_raw(12))
        .cursor(Handle::from_raw(13))
        .background(Handle::from_raw(14))
        .menu_name(wide("m"));
    let registration = builder.registration();
    assert_eq!(registration.style, 0x0003);
    assert_eq!(registration.cls_extra, 0);
    assert_eq!(registration.wnd_extra, 0);
    assert_eq!(registration.instance, Handle::from_raw(0x400000));
    assert_eq!(registration.icon, Handle::from_raw(11));
    assert_eq!(registration.small_icon, Handle::from_raw(12));
    assert_eq!(registration.cursor, Handle::from_raw(13));
    assert_eq!(registration.background, Handle::from_raw(14));
    assert_eq!(registration.menu_name, Some(&[0x6D, 0][..]));
    assert_eq!(registration.class_name, &[0x63, 0][..]);
}

#[test]
fn a_later_setting_replaces_an_earlier_one() {
    let builder = WindowClass::builder(wide("c")).class_style(1).icon(Handle::from_raw(5)).class_style(2);
    let registration = builder.registration();
    assert_eq!(registration.style, 2);
    assert_eq!(registration.icon, Handle::from_raw(5));
}

#[test]
fn a_registered_class_is_its_atom() {
    assert_eq!(WindowClass::builder(wide("c")).build(0xC001), Ok(WindowClass::Atom(0xC001)));
    assert_eq!(WindowClass::builder(wide("c")).build(1), Ok(WindowClass::Atom(1)));
    assert_eq!(WindowClass::builder(wide("c")).build(u16::MAX), Ok(WindowClass::Atom(u16::MAX)));
}

#[test]
fn a_rejected_registration_is_an_error() {
    assert_eq!(WindowClass::builder(wide("c")).build(0), Err(Error::RegisterClassFailed));
}

#[test]
fn a_new_window_builder_has_only_its_class() {
    let class = WindowClass::Atom(0xC001);
    let (params, binding) = WindowBuilder::new(Silent, &class).build();
    assert_eq!(params.ex_style, 0);
    assert_eq!(params.window_class, &WindowClass::Atom(0xC001));
    assert_eq!(params.window_name, Vec::<u16>::new());
    assert_eq!(params.name(), None);
    assert_eq!(params.style, 0);
    assert_eq!(params.x, CW_USEDEFAULT);
    assert_eq!(params.y, CW_USEDEFAULT);
    assert_eq!(params.width, CW_USEDEFAULT);
    assert_eq!(params.height, CW_USEDEFAULT);
    assert_eq!(params.parent, Handle::null());
    assert_eq!(params.menu, Handle::null());
    assert_eq!(params.instance, Handle::null());
    assert_eq!(binding.references(), 1);
    assert!(binding.is_pending());
    assert!(!binding.is_bound());
}

#[test]
fn a_window_builder_hands_over_what_was_set() {
    let class = WindowClass::from_name(wide("rust"));
    let (params, binding) = WindowBuilder::new(Silent, &class)
        .name(wide("hi"))
        .style(0x00CF_0000)
        .ex_style(0x0020_0000)
        .position(10, -20)
        .size(640, 480)
        .parent_hwnd(Handle::from_raw(0x100))
        .menu(Handle::from_raw(0x200))
        .instance(Handle::from_raw(0x300))
        .build();
    assert_eq!(params.ex_style, 0x0020_0000);
    assert_eq!(params.window_class, &WindowClass::Name(vec![0x72, 0x75, 0x73, 0x74, 0]));
    assert_eq!(params.window_name, vec![0x68, 0x69, 0]);
    assert_eq!(params.name(), Some(&[0x68, 0x69, 0][..]));
    assert_eq!(params.style, 0x00CF_0000);
    assert_eq!(params.x, 10);
    assert_eq!(params.y, -20);
    assert_eq!(params.width, 640);
    assert_eq!(params.height, 480);
    assert_eq!(params.parent, Handle::from_raw(0x100));
    assert_eq!(params.menu, Handle::from_raw(0x200));
    assert_eq!(params.instance, Handle::from_raw(0x300));
    assert_eq!(binding.references(), 1);
}

#[test]
fn one_coordinate_can_be_left_to_the_native_subsystem() {
    let class = WindowClass::Atom(1);
    let (params, _binding) =
        WindowBuilder::new(Silent, &class).position(CW_USEDEFAULT, 5).size(300, CW_USEDEFAULT).build();
    assert_eq!((params.x, params.y), (i32::MIN, 5));
    assert_eq!((params.width, params.height), (300, i32::MIN));
}

#[test]
fn handles_are_null_exactly_at_zero() {
    assert!(Handle::null().is_null());
    assert!(Handle::from_raw(0).is_null());
    assert!(!Handle::from_raw(1).is_null());
    assert!(!Handle::from_raw(usize::MAX).is_null());
    assert_eq!(Handle::from_raw(77).raw, 77);
    assert_eq!(Handle::null().raw, 0);
}
