use vstd::prelude::*;
use vstd::string::StringSliceAdditionalSpecFns;
use vstd::utf8::{decode_utf8, encode_utf8, encode_utf8_decode_utf8};

verus! {

/// A button of the game's controls.
#[derive(Debug, Clone, Copy, PartialEq, Eq, Hash, Structural)]
pub enum ButtonState {
    Left,
    Right,
    Space,
    Esc,
}

/// The set of buttons held down at the moment.
pub struct ButtonSet {
    left: bool,
    right: bool,
    space: bool,
    esc: bool,
}

impl View for ButtonSet {
    type V = Set<ButtonState>;

    closed spec fn view(&self) -> Set<ButtonState> {
        Set::new(|b: ButtonState| self.holds(b))
    }
}

impl ButtonSet {
    closed spec fn holds(&self, b: ButtonState) -> bool {
        match b {
            ButtonState::Left => self.left,
            ButtonState::Right => self.right,
            ButtonState::Space => self.space,
            ButtonState::Esc => self.esc,
        }
    }

    /// No button held.
    pub fn new() -> (r: ButtonSet)
        ensures
            r@ == Set::<ButtonState>::empty(),
    {
        let r = ButtonSet { left: false, right: false, space: false, esc: false };
        assert(r@ =~= Set::<ButtonState>::empty());
        r
    }

    /// Whether `b` is held.
    pub fn contains(&self, b: ButtonState) -> (r: bool)
        ensures
            r == self@.contains(b),
    {
        match b {
            ButtonState::Left => self.left,
            ButtonState::Right => self.right,
            ButtonState::Space => self.space,
            ButtonState::Esc => self.esc,
        }
    }

    /// Marks `b` as held.
    pub fn insert(&mut self, b: ButtonState)
        ensures
            final(self)@ == old(self)@.insert(b),
    {
        self.set(b, true);
        assert(self@ =~= old(self)@.insert(b));
    }

    /// Marks `b` as released.
    pub fn remove(&mut self, b: ButtonState)
        ensures
            final(self)@ == old(self)@.remove(b),
    {
        self.set(b, false);
        assert(self@ =~= old(self)@.remove(b));
    }

    fn set(&mut self, b: ButtonState, held: bool)
        ensures
            final(self).holds(b) == held,
            forall|c: ButtonState| c != b ==> final(self).holds(c) == old(self).holds(c),
    {
        match b {
            ButtonState::Left => self.left = held,
            ButtonState::Right => self.right = held,
            ButtonState::Space => self.space = held,
            ButtonState::Esc => self.esc = held,
        }
    }
}

/// The button that a key name stands for, if any.
pub open spec fn button_for_key(key: Seq<char>) -> Option<ButtonState> {
    if key == "a"@ || key == "Left"@ || key == "ArrowLeft"@ {
        Some(ButtonState::Left)
    } else if key == "d"@ || key == "Right"@ || key == "ArrowRight"@ {
        Some(ButtonState::Right)
    } else if key == " "@ {
        Some(ButtonState::Space)
    } else if key == "Escape"@ {
        Some(ButtonState::Esc)
    } else {
        None
    }
}

/// Whether two strings hold the same characters, decided on their bytes.
fn same_text(s: &str, t: &str) -> (r: bool)
    ensures
        r == (s@ == t@),
{
    let sb = s.as_bytes();
    let tb = t.as_bytes();
    proof {
        encode_utf8_decode_utf8(s@);
        encode_utf8_decode_utf8(t@);
    }
    if sb.len() != tb.len() {
        return false;
    }
    let mut i: usize = 0;
    while i < sb.len()
        invariant
            sb@ == encode_utf8(s@),
            tb@ == encode_utf8(t@),
            sb@.len() == tb@.len(),
            0 <= i <= sb@.len(),
            forall|j: int| 0 <= j < i ==> sb@[j] == tb@[j],
        decreases sb@.len() - i,
    {
        if sb[i] != tb[i] {
            return false;
        }
        i = i + 1;
    }
    assert(sb@ =~= tb@);
    assert(decode_utf8(encode_utf8(s@)) == s@);
    true
}

/// The button for a key name, decided as `button_for_key` does.
fn key_to_button(key: &str) -> (r: Option<ButtonState>)
    ensures
        r == button_for_key(key@),
{
    if same_text(key, "a") || same_text(key, "Left") || same_text(key, "ArrowLeft") {
        Some(ButtonState::Left)
    } else if same_text(key, "d") || same_text(key, "Right") || same_text(key, "ArrowRight") {
        Some(ButtonState::Right)
    } else if same_text(key, " ") {
        Some(ButtonState::Space)
    } else if same_text(key, "Escape") {
        Some(ButtonState::Esc)
    } else {
        None
    }
}

/// A material of the rendering side, known here by its id.
#[derive(Debug)]
pub struct Material {
    id: u32,
}

impl View for Material {
    type V = u32;

    closed spec fn view(&self) -> u32 {
        self.id
    }
}

impl Material {
    pub fn new(id: u32) -> (r: Material)
        ensures
            r@ == id,
    {
        Material { id: id }
    }

    pub fn get_id(&self) -> (r: u32)
        ensures
            r == self@,
    {
        self.id
    }
}

/// A geometry of the rendering side, known here by its id.
#[derive(Debug)]
pub struct Geometry {
    id: u32,
}

impl View for Geometry {
    type V = u32;

    closed spec fn view(&self) -> u32 {
        self.id
    }
}

impl Geometry {
    pub fn new(id: u32) -> (r: Geometry)
        ensures
            r@ == id,
    {
        Geometry { id: id }
    }

    pub fn get_id(&self) -> (r: u32)
        ensures
            r == self@,
    {
        self.id
    }
}

/// The materials that the game draws with, numbered from 0 in field order.
#[derive(Debug)]
pub struct Materials {
    pub default: Material,
    pub player: Material,
    pub ball: Material,
    pub walls: Material,
}

impl Materials {
    pub fn new() -> (r: Materials)
        ensures
            r.default@ == 0,
            r.player@ == 1,
            r.ball@ == 2,
            r.walls@ == 3,
    {
        Materials {
            default: Material::new(0),
            player: Material::new(1),
            ball: Material::new(2),
            walls: Material::new(3),
        }
    }
}

/// The geometries that the game draws with, numbered from 0 in field order.
#[derive(Debug)]
pub struct Geometries {
    pub box_geometry: Geometry,
    pub player_geometry: Geometry,
    pub sphere_geometry: Geometry,
    pub side_walls_geometry: Geometry,
    pub top_down_walls_geometry: Geometry,
}

impl Geometries {
    pub fn new() -> (r: Geometries)
        ensures
            r.box_geometry@ == 0,
            r.player_geometry@ == 1,
            r.sphere_geometry@ == 2,
            r.side_walls_geometry@ == 3,
            r.top_down_walls_geometry@ == 4,
    {
        Geometries {
            box_geometry: Geometry::new(0),
            player_geometry: Geometry::new(1),
            sphere_geometry: Geometry::new(2),
            side_walls_geometry: Geometry::new(3),
            top_down_walls_geometry: Geometry::new(4),
        }
    }
}

/// The game's bookkeeping: object ids handed out, buttons held, the screen's size, and the
/// materials and geometries to draw with.
pub struct WebGame {
    pub global_object_counter: u32,
    pub buttons: ButtonSet,
    pub screen_w: i32,
    pub screen_h: i32,
    pub materials: Materials,
    pub geometries: Geometries,
}

impl WebGame {
    pub fn new() -> (r: WebGame)
        ensures
            r.global_object_counter == 0,
            r.buttons@ == Set::<ButtonState>::empty(),
            r.screen_w == 0,
            r.screen_h == 0,
            r.materials.default@ == 0,
            r.materials.player@ == 1,
            r.materials.ball@ == 2,
            r.materials.walls@ == 3,
            r.geometries.box_geometry@ == 0,
            r.geometries.player_geometry@ == 1,
            r.geometries.sphere_geometry@ == 2,
            r.geometries.side_walls_geometry@ == 3,
            r.geometries.top_down_walls_geometry@ == 4,
    {
        WebGame {
            global_object_counter: 0,
            buttons: ButtonSet::new(),
            screen_w: 0,
            screen_h: 0,
            materials: Materials::new(),
            geometries: Geometries::new(),
        }
    }

    /// Hands out the next object id: returns the counter and advances it by one.
    pub fn increment_global_object_counter(&mut self) -> (r: u32)
        requires
            old(self).global_object_counter < u32::MAX,
        ensures
            r == old(self).global_object_counter,
            final(self).global_object_counter == old(self).global_object_counter + 1,
            final(self).buttons == old(self).buttons,
            final(self).screen_w == old(self).screen_w,
            final(self).screen_h == old(self).screen_h,
            final(self).materials == old(self).materials,
            final(self).geometries == old(self).geometries,
    {
        let old_value = self.global_object_counter;
        self.global_object_counter = self.global_object_counter + 1;
        old_value
    }

    /// Records a key going down (`pressed`) or up. A key that names a button marks that
    /// button held or released and returns `true`; any other key changes nothing and
    /// returns `false`.
    pub fn on_button(&mut self, key: &str, pressed: bool) -> (r: bool)
        ensures
            r == button_for_key(key@).is_some(),
            final(self).buttons@ == match button_for_key(key@) {
                Some(b) => if pressed {
                    old(self).buttons@.insert(b)
                } else {
                    old(self).buttons@.remove(b)
                },
                None => old(self).buttons@,
            },
            final(self).global_object_counter == old(self).global_object_counter,
            final(self).screen_w == old(self).screen_w,
            final(self).screen_h == old(self).screen_h,
            final(self).materials == old(self).materials,
            final(self).geometries == old(self).geometries,
    {
        let button = match key_to_button(key) {
            Some(b) => b,
            None => {
                return false;
            },
        };
        if pressed {
            self.buttons.insert(button);
        } else {
            self.buttons.remove(button);
        }
        true
    }
}

/// Records the screen's new size in pixels.
pub fn on_sceen_size_changed(state: &mut WebGame, w: i32, h: i32)
    ensures
        final(state).screen_w == w,
        final(state).screen_h == h,
        final(state).global_object_counter == old(state).global_object_counter,
        final(state).buttons == old(state).buttons,
        final(state).materials == old(state).materials,
        final(state).geometries == old(state).geometries,
{
    state.screen_w = w;
    state.screen_h = h;
}

} // verus!
