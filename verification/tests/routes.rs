use portfolio::routes::Route;

const EVERY_ROUTE: [Route; 5] =
    [Route::Home, Route::About, Route::Contact, Route::Experience, Route::Projects];

#[test]
fn each_section_has_its_path() {
    assert_eq!(Route::Home.path(), "/");
    assert_eq!(Route::About.path(), "/about");
    assert_eq!(Route::Contact.path(), "/contact");
    assert_eq!(Route::Experience.path(), "/experience");
    assert_eq!(Route::Projects.path(), "/projects");
}

#[test]
fn no_two_sections_share_a_path() {
    for a in EVERY_ROUTE {
        for b in EVERY_ROUTE {
            assert_eq!(a.path() == b.path(), a == b);
        }
    }
}

#[test]
fn table_lists_every_section_once_in_menu_order() {
    assert_eq!(
        Route::all(),
        vec![Route::Home, Route::About, Route::Experience, Route::Projects, Route::Contact]
    );
}

#[test]
fn lookup_leads_back_from_each_path() {
    for route in EVERY_ROUTE {
        assert_eq!(Route::from_path(route.path()), Some(route));
    }
}

#[test]
fn lookup_knows_no_other_path() {
    for path in ["", "about", "/about/", "/About", "/projects/demo", "/contact?x=1", "//", "/api"] {
        assert_eq!(Route::from_path(path), None);
    }
}
