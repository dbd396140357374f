use vstd::prelude::*;

verus! {

/// A course lesson: its title, length in hours, address, and whether it has
/// been published.
pub struct Lesson {
    pub name: String,
    pub duration: u32,
    pub url: String,
    pub is_published: bool,
}

/// A new, not yet published lesson.
pub fn create_lesson(name: String, duration: u32, url: String) -> (r: Lesson)
    ensures
        r.name == name,
        r.duration == duration,
        r.url == url,
        !r.is_published,
{
    Lesson { name, duration, url, is_published: false }
}

/// `x` plus three.
pub fn add_three(x: i32) -> (r: i32)
    requires
        x <= i32::MAX - 3,
    ensures
        r == x + 3,
{
    x + 3
}

} // verus!
