//! The routing attributes of one way, and the rules that derive them from
//! the way's tags.
//!
//! An [`EdgeProperties`] starts with every class unknown. Each tag of the
//! way is applied with [`EdgeProperties::update_with_str`], in the order in
//! which the tags are read; a later tag overwrites what an earlier one set.
//! [`EdgeProperties::normalize`] then fills what is still unknown and
//! derives the speed limits and the direction of travel.

use crate::speed::{
    find_unknown_code, kmph, to_kmph, unknown_code, zone_limit, zone_speed, UNSET,
};
use crate::text::{chars_of, spells};
use vstd::prelude::*;
use vstd::slice::slice_to_vec;

verus! {

/// A class that no tag has set yet.
pub const UNKNOWN: i8 = -1;

/// No pedestrian is allowed.
pub const FOOT_FORBIDDEN: i8 = 0;

/// Pedestrians are allowed in both directions.
pub const FOOT_ALLOWED: i8 = 1;

/// No car is allowed.
pub const CAR_FORBIDDEN: i8 = 0;

/// A residential street, or a road of no higher class.
pub const CAR_RESIDENTIAL: i8 = 1;

/// A tertiary road.
pub const CAR_TERTIARY: i8 = 2;

/// A secondary road.
pub const CAR_SECONDARY: i8 = 3;

/// A primary road.
pub const CAR_PRIMARY: i8 = 4;

/// A trunk road.
pub const CAR_TRUNK: i8 = 5;

/// A motorway.
pub const CAR_MOTORWAY: i8 = 6;

/// No bicycle is allowed.
pub const BIKE_FORBIDDEN: i8 = 0;

/// Bicycles are allowed, and may share the road with cars.
pub const BIKE_ALLOWED: i8 = 2;

/// A narrow lane for bicycles, not parted from the other traffic.
pub const BIKE_LANE: i8 = 3;

/// Bicycles are allowed on the bus lane.
pub const BIKE_BUSWAY: i8 = 4;

/// A track for bicycles, parted from all other traffic.
pub const BIKE_TRACK: i8 = 5;

/// Cars may travel in neither direction.
pub const IN_NO_DIRECTION: i8 = 0;

/// Cars may travel in both directions.
pub const IN_BOTH_DIRECTIONS: i8 = 1;

/// Cars may travel only in the direction in which the way is drawn.
pub const IN_POSITIVE_DIRECTION: i8 = 2;

/// Cars may travel only against the direction in which the way is drawn.
pub const IN_NEGATIVE_DIRECTION: i8 = 3;

/// Which means of transport can use an edge, in each direction, and how fast.
#[derive(Clone, Copy)]
pub struct EdgeProperties {
    /// Whether pedestrians are allowed.
    pub foot: i8,
    /// The class of the road for cars, in the direction of the way.
    pub car_forward: i8,
    /// The class of the road for cars, against the direction of the way.
    pub car_backward: i8,
    /// What bicycles find, in the direction of the way.
    pub bike_forward: i8,
    /// What bicycles find, against the direction of the way.
    pub bike_backward: i8,
    /// The speed limit that a tag gives, in km/h; -1 where none does, -99
    /// where there is no legal limit.
    pub maxspeed: i32,
    /// The speed limit for cars in the direction of the way, in km/h.
    pub positive_speedlimit: i32,
    /// The speed limit for cars against the direction of the way, in km/h.
    pub negative_speedlimit: i32,
    /// The directions in which cars may travel.
    pub direction: i8,
}

/// Whether `class` is a pedestrian class.
pub open spec fn is_foot_class(class: i8) -> bool {
    class == FOOT_FORBIDDEN || class == FOOT_ALLOWED
}

/// Whether `class` is a car class.
pub open spec fn is_car_class(class: i8) -> bool {
    CAR_FORBIDDEN <= class <= CAR_MOTORWAY
}

/// Whether `class` is a bicycle class.
pub open spec fn is_bike_class(class: i8) -> bool {
    class == BIKE_FORBIDDEN || BIKE_ALLOWED <= class <= BIKE_TRACK
}

/// Whether `direction` is one of the four directions of travel.
pub open spec fn is_direction(direction: i8) -> bool {
    IN_NO_DIRECTION <= direction <= IN_NEGATIVE_DIRECTION
}

/// `class` where it is known, else `fallback`.
pub open spec fn known_or(class: i8, fallback: i8) -> i8 {
    if class == UNKNOWN {
        fallback
    } else {
        class
    }
}

/// The speed limit, in km/h, of a road of car class `class` on which no
/// sign says otherwise.
pub open spec fn class_speed(class: i8) -> i32 {
    if class == CAR_RESIDENTIAL {
        50
    } else if class == CAR_TERTIARY || class == CAR_SECONDARY || class == CAR_PRIMARY {
        90
    } else if class == CAR_TRUNK {
        110
    } else if class == CAR_MOTORWAY {
        130
    } else {
        UNSET
    }
}

/// The speed limit in one direction: `before`, the limit held so far, where
/// cars are forbidden in that direction; else `maxspeed` where a tag gave
/// one; else the limit of the road's class.
pub open spec fn speed_limit(class: i8, maxspeed: i32, before: i32) -> i32 {
    if class == CAR_FORBIDDEN {
        before
    } else if maxspeed != UNSET {
        maxspeed
    } else {
        class_speed(class)
    }
}

/// The directions in which cars may travel on a road of class `forward` in
/// the direction of the way and `backward` against it.
pub open spec fn direction_of(forward: i8, backward: i8) -> i8 {
    if forward == CAR_FORBIDDEN && backward == CAR_FORBIDDEN {
        IN_NO_DIRECTION
    } else if backward == CAR_FORBIDDEN {
        IN_POSITIVE_DIRECTION
    } else if forward == CAR_FORBIDDEN {
        IN_NEGATIVE_DIRECTION
    } else {
        IN_BOTH_DIRECTIONS
    }
}

/// The speed limit, in km/h, of a road of car class `class` on which no
/// sign says otherwise.
pub fn default_speed(class: i8) -> (limit: i32)
    requires
        is_car_class(class),
    ensures
        limit == class_speed(class),
{
    let limits: [i32; 7] = [-1, 50, 90, 90, 90, 110, 130];
    limits[class as usize]
}

impl EdgeProperties {
    /// The record of a way of which nothing is known yet.
    pub open spec fn unset() -> EdgeProperties {
        EdgeProperties {
            foot: UNKNOWN,
            car_forward: UNKNOWN,
            car_backward: UNKNOWN,
            bike_forward: UNKNOWN,
            bike_backward: UNKNOWN,
            maxspeed: UNSET,
            positive_speedlimit: UNSET,
            negative_speedlimit: UNSET,
            direction: IN_BOTH_DIRECTIONS,
        }
    }

    /// Each field holds a value of its kind: a class, or [`UNKNOWN`], and
    /// one of the four directions.
    pub open spec fn wf(self) -> bool {
        &&& self.foot == UNKNOWN || is_foot_class(self.foot)
        &&& self.car_forward == UNKNOWN || is_car_class(self.car_forward)
        &&& self.car_backward == UNKNOWN || is_car_class(self.car_backward)
        &&& self.bike_forward == UNKNOWN || is_bike_class(self.bike_forward)
        &&& self.bike_backward == UNKNOWN || is_bike_class(self.bike_backward)
        &&& is_direction(self.direction)
    }

    /// No class is unknown.
    pub open spec fn resolved(self) -> bool {
        &&& is_foot_class(self.foot)
        &&& is_car_class(self.car_forward)
        &&& is_car_class(self.car_backward)
        &&& is_bike_class(self.bike_forward)
        &&& is_bike_class(self.bike_backward)
        &&& is_direction(self.direction)
    }

    /// The record with nothing left unknown. A direction of which no tag
    /// spoke takes the class of the other direction, the backward one from
    /// the forward one; what is unknown then is forbidden. The speed limits
    /// and the direction follow from the car classes.
    pub open spec fn normalized(self) -> EdgeProperties {
        let car_forward = known_or(self.car_forward, CAR_FORBIDDEN);
        let car_backward = known_or(self.car_backward, car_forward);
        let bike_forward = known_or(self.bike_forward, BIKE_FORBIDDEN);
        let bike_backward = known_or(self.bike_backward, bike_forward);
        EdgeProperties {
            foot: known_or(self.foot, FOOT_FORBIDDEN),
            car_forward,
            car_backward,
            bike_forward,
            bike_backward,
            maxspeed: self.maxspeed,
            positive_speedlimit: speed_limit(car_forward, self.maxspeed, self.positive_speedlimit),
            negative_speedlimit: speed_limit(
                car_backward,
                self.maxspeed,
                self.negative_speedlimit,
            ),
            direction: direction_of(car_forward, car_backward),
        }
    }

    /// Whether some means of transport can use the edge in some direction:
    /// a car, where `car_only` is set, else a pedestrian, a bicycle or a car.
    /// A class counts unless it is forbidden.
    pub open spec fn is_accessible(self, car_only: bool) -> bool {
        let by_car = self.car_forward != CAR_FORBIDDEN || self.car_backward != CAR_FORBIDDEN;
        if car_only {
            by_car
        } else {
            by_car || self.bike_forward != BIKE_FORBIDDEN || self.bike_backward != BIKE_FORBIDDEN
                || self.foot != FOOT_FORBIDDEN
        }
    }

    /// The record of a road of car class `class` that pedestrians and
    /// bicycles may use as well.
    pub open spec fn shared_road(self, class: i8) -> EdgeProperties {
        EdgeProperties {
            car_forward: class,
            foot: FOOT_ALLOWED,
            bike_forward: BIKE_ALLOWED,
            ..self
        }
    }

    /// The record of a road of car class `class` that is closed to
    /// pedestrians and bicycles.
    pub open spec fn cars_only_road(self, class: i8) -> EdgeProperties {
        EdgeProperties {
            car_forward: class,
            foot: FOOT_FORBIDDEN,
            bike_forward: BIKE_FORBIDDEN,
            ..self
        }
    }

    /// The record once closed to cars against the direction of the way, and
    /// to bicycles too unless a tag has spoken of them in that direction.
    pub open spec fn one_way(self) -> EdgeProperties {
        EdgeProperties {
            car_backward: CAR_FORBIDDEN,
            bike_backward: known_or(self.bike_backward, BIKE_FORBIDDEN),
            ..self
        }
    }

    /// The record after the tag `highway` with the value `val`.
    pub open spec fn with_highway(self, val: Seq<char>) -> EdgeProperties {
        if val == "cycleway"@ || val == "path"@ || val == "footway"@ || val == "steps"@ || val
            == "pedestrian"@ {
            EdgeProperties { bike_forward: BIKE_TRACK, foot: FOOT_ALLOWED, ..self }
        } else if val == "primary"@ || val == "primary_link"@ {
            self.shared_road(CAR_PRIMARY)
        } else if val == "secondary"@ {
            self.shared_road(CAR_SECONDARY)
        } else if val == "tertiary"@ {
            self.shared_road(CAR_TERTIARY)
        } else if val == "unclassified"@ || val == "residential"@ || val == "living_street"@ || val
            == "road"@ || val == "service"@ || val == "track"@ {
            self.shared_road(CAR_RESIDENTIAL)
        } else if val == "motorway"@ || val == "motorway_link"@ {
            self.cars_only_road(CAR_MOTORWAY)
        } else if val == "trunk"@ || val == "trunk_link"@ {
            self.cars_only_road(CAR_TRUNK)
        } else {
            self
        }
    }

    /// The record after the tag `cycleway` with the value `val`.
    pub open spec fn with_cycleway(self, val: Seq<char>) -> EdgeProperties {
        if val == "track"@ {
            EdgeProperties { bike_forward: BIKE_TRACK, ..self }
        } else if val == "opposite_track"@ {
            EdgeProperties { bike_backward: BIKE_TRACK, ..self }
        } else if val == "opposite"@ {
            EdgeProperties { bike_backward: BIKE_ALLOWED, ..self }
        } else if val == "share_busway"@ {
            EdgeProperties { bike_forward: BIKE_BUSWAY, ..self }
        } else if val == "lane_left"@ || val == "opposite_lane"@ {
            EdgeProperties { bike_backward: BIKE_LANE, ..self }
        } else {
            EdgeProperties { bike_forward: BIKE_LANE, ..self }
        }
    }

    /// The record after the tag `key` with the value `val`. A key or a
    /// value that the rules do not name leaves the record as it is.
    pub open spec fn with_tag(self, key: Seq<char>, val: Seq<char>) -> EdgeProperties {
        if key == "highway"@ {
            self.with_highway(val)
        } else if key == "pedestrian"@ || key == "foot"@ {
            if val == "no"@ {
                EdgeProperties { foot: FOOT_FORBIDDEN, ..self }
            } else {
                EdgeProperties { foot: FOOT_ALLOWED, ..self }
            }
        } else if key == "cycleway"@ {
            self.with_cycleway(val)
        } else if key == "bicycle"@ {
            if val == "no"@ || val == "false"@ {
                EdgeProperties { bike_forward: BIKE_FORBIDDEN, ..self }
            } else {
                EdgeProperties { bike_forward: BIKE_ALLOWED, ..self }
            }
        } else if key == "busway"@ {
            if val == "opposite_lane"@ || val == "opposite_track"@ {
                EdgeProperties { bike_backward: BIKE_BUSWAY, ..self }
            } else {
                EdgeProperties { bike_forward: BIKE_BUSWAY, ..self }
            }
        } else if key == "oneway"@ {
            if val == "yes"@ || val == "true"@ || val == "1"@ {
                self.one_way()
            } else {
                self
            }
        } else if key == "junction"@ {
            if val == "roundabout"@ {
                self.one_way()
            } else {
                self
            }
        } else if key == "maxspeed"@ {
            EdgeProperties { maxspeed: kmph(val), ..self }
        } else {
            self
        }
    }

    /// The record of a way of which nothing is known yet.
    pub fn default() -> (fresh: EdgeProperties)
        ensures
            fresh == Self::unset(),
    {
        EdgeProperties {
            foot: UNKNOWN,
            car_forward: UNKNOWN,
            car_backward: UNKNOWN,
            bike_forward: UNKNOWN,
            bike_backward: UNKNOWN,
            maxspeed: UNSET,
            positive_speedlimit: UNSET,
            negative_speedlimit: UNSET,
            direction: IN_BOTH_DIRECTIONS,
        }
    }

    /// Whether each field holds a value of its kind, as [`normalize`]
    /// requires.
    ///
    /// [`normalize`]: EdgeProperties::normalize
    pub fn well_formed(&self) -> (yes: bool)
        ensures
            yes == self.wf(),
    {
        let foot = self.foot == UNKNOWN || self.foot == FOOT_FORBIDDEN || self.foot
            == FOOT_ALLOWED;
        let car = UNKNOWN <= self.car_forward && self.car_forward <= CAR_MOTORWAY && UNKNOWN
            <= self.car_backward && self.car_backward <= CAR_MOTORWAY;
        let bike_forward = self.bike_forward == UNKNOWN || self.bike_forward == BIKE_FORBIDDEN || (
        BIKE_ALLOWED <= self.bike_forward && self.bike_forward <= BIKE_TRACK);
        let bike_backward = self.bike_backward == UNKNOWN || self.bike_backward == BIKE_FORBIDDEN
            || (BIKE_ALLOWED <= self.bike_backward && self.bike_backward <= BIKE_TRACK);
        let direction = IN_NO_DIRECTION <= self.direction && self.direction
            <= IN_NEGATIVE_DIRECTION;
        foot && car && bike_forward && bike_backward && direction
    }

    /// Fills the classes that are still unknown, and derives the speed
    /// limits and the direction. To be called once, when every tag of the
    /// way has been applied; a second call changes nothing.
    pub fn normalize(&mut self)
        requires
            old(self).wf(),
        ensures
            *final(self) == old(self).normalized(),
            final(self).resolved(),
    {
        if self.car_backward == UNKNOWN {
            self.car_backward = self.car_forward;
        }
        if self.bike_backward == UNKNOWN {
            self.bike_backward = self.bike_forward;
        }
        if self.foot == UNKNOWN {
            self.foot = FOOT_FORBIDDEN;
        }
        if self.car_forward == UNKNOWN {
            self.car_forward = CAR_FORBIDDEN;
        }
        if self.bike_forward == UNKNOWN {
            self.bike_forward = BIKE_FORBIDDEN;
        }
        if self.car_backward == UNKNOWN {
            self.car_backward = CAR_FORBIDDEN;
        }
        if self.bike_backward == UNKNOWN {
            self.bike_backward = BIKE_FORBIDDEN;
        }
        if self.car_forward != CAR_FORBIDDEN {
            if self.maxspeed != UNSET {
                self.positive_speedlimit = self.maxspeed;
            } else {
                self.positive_speedlimit = default_speed(self.car_forward);
            }
        }
        if self.car_backward != CAR_FORBIDDEN {
            if self.maxspeed != UNSET {
                self.negative_speedlimit = self.maxspeed;
            } else {
                self.negative_speedlimit = default_speed(self.car_backward);
            }
        }
        if self.car_forward == CAR_FORBIDDEN && self.car_backward == CAR_FORBIDDEN {
            self.direction = IN_NO_DIRECTION;
        } else if self.car_forward != CAR_FORBIDDEN && self.car_backward == CAR_FORBIDDEN {
            self.direction = IN_POSITIVE_DIRECTION;
        } else if self.car_forward == CAR_FORBIDDEN && self.car_backward != CAR_FORBIDDEN {
            self.direction = IN_NEGATIVE_DIRECTION;
        } else {
            self.direction = IN_BOTH_DIRECTIONS;
        }
    }

    /// Whether some means of transport can use the edge in some direction.
    /// With `car_only` set, whether a car can.
    pub fn accessible(self, car_only: bool) -> (yes: bool)
        ensures
            yes == self.is_accessible(car_only),
    {
        if car_only {
            !(self.car_forward == CAR_FORBIDDEN && self.car_backward == CAR_FORBIDDEN)
        } else {
            self.bike_forward != BIKE_FORBIDDEN || self.bike_backward != BIKE_FORBIDDEN
                || self.car_forward != CAR_FORBIDDEN || self.car_backward != CAR_FORBIDDEN
                || self.foot != FOOT_FORBIDDEN
        }
    }

    /// Applies the tag `key_string` = `val_string` to the record.
    pub fn update(&mut self, key_string: String, val_string: String)
        ensures
            *final(self) == old(self).with_tag(key_string@, val_string@),
            old(self).wf() ==> final(self).wf(),
    {
        self.update_with_str(key_string.as_str(), val_string.as_str());
    }

    /// Applies the tag `key` = `val` to the record.
    pub fn update_with_str(&mut self, key: &str, val: &str)
        ensures
            *final(self) == old(self).with_tag(key@, val@),
            old(self).wf() ==> final(self).wf(),
    {
        let key_chars = chars_of(key);
        let val_chars = chars_of(val);
        let k = key_chars.as_slice();
        let v = val_chars.as_slice();
        if spells(k, "highway") {
            if spells(v, "cycleway") || spells(v, "path") || spells(v, "footway") || spells(
                v,
                "steps",
            ) || spells(v, "pedestrian") {
                self.bike_forward = BIKE_TRACK;
                self.foot = FOOT_ALLOWED;
            } else if spells(v, "primary") || spells(v, "primary_link") {
                self.car_forward = CAR_PRIMARY;
                self.foot = FOOT_ALLOWED;
                self.bike_forward = BIKE_ALLOWED;
            } else if spells(v, "secondary") {
                self.car_forward = CAR_SECONDARY;
                self.foot = FOOT_ALLOWED;
                self.bike_forward = BIKE_ALLOWED;
            } else if spells(v, "tertiary") {
                self.car_forward = CAR_TERTIARY;
                self.foot = FOOT_ALLOWED;
                self.bike_forward = BIKE_ALLOWED;
            } else if spells(v, "unclassified") || spells(v, "residential") || spells(
                v,
                "living_street",
            ) || spells(v, "road") || spells(v, "service") || spells(v, "track") {
                self.car_forward = CAR_RESIDENTIAL;
                self.foot = FOOT_ALLOWED;
                self.bike_forward = BIKE_ALLOWED;
            } else if spells(v, "motorway") || spells(v, "motorway_link") {
                self.car_forward = CAR_MOTORWAY;
                self.foot = FOOT_FORBIDDEN;
                self.bike_forward = BIKE_FORBIDDEN;
            } else if spells(v, "trunk") || spells(v, "trunk_link") {
                self.car_forward = CAR_TRUNK;
                self.foot = FOOT_FORBIDDEN;
                self.bike_forward = BIKE_FORBIDDEN;
            }
        } else if spells(k, "pedestrian") || spells(k, "foot") {
            if spells(v, "no") {
                self.foot = FOOT_FORBIDDEN;
            } else {
                self.foot = FOOT_ALLOWED;
            }
        } else if spells(k, "cycleway") {
            if spells(v, "track") {
                self.bike_forward = BIKE_TRACK;
            } else if spells(v, "opposite_track") {
                self.bike_backward = BIKE_TRACK;
            } else if spells(v, "opposite") {
                self.bike_backward = BIKE_ALLOWED;
            } else if spells(v, "share_busway") {
                self.bike_forward = BIKE_BUSWAY;
            } else if spells(v, "lane_left") || spells(v, "opposite_lane") {
                self.bike_backward = BIKE_LANE;
            } else {
                self.bike_forward = BIKE_LANE;
            }
        } else if spells(k, "bicycle") {
            if spells(v, "no") || spells(v, "false") {
                self.bike_forward = BIKE_FORBIDDEN;
            } else {
                self.bike_forward = BIKE_ALLOWED;
            }
        } else if spells(k, "busway") {
            if spells(v, "opposite_lane") || spells(v, "opposite_track") {
                self.bike_backward = BIKE_BUSWAY;
            } else {
                self.bike_forward = BIKE_BUSWAY;
            }
        } else if spells(k, "oneway") {
            if spells(v, "yes") || spells(v, "true") || spells(v, "1") {
                self.car_backward = CAR_FORBIDDEN;
                if self.bike_backward == UNKNOWN {
                    self.bike_backward = BIKE_FORBIDDEN;
                }
            }
        } else if spells(k, "junction") {
            if spells(v, "roundabout") {
                self.car_backward = CAR_FORBIDDEN;
                if self.bike_backward == UNKNOWN {
                    self.bike_backward = BIKE_FORBIDDEN;
                }
            }
        } else if spells(k, "maxspeed") {
            self.maxspeed = to_kmph(v);
        }
    }

    /// The speed limit, in km/h, of the zone that `val` names by a country
    /// and a kind of zone, as in `FR:urban`; -1 for a zone that is not
    /// known. The record plays no part and stays as it is.
    pub fn cczone_to_speed(&mut self, val: &str) -> (limit: i32)
        ensures
            *final(self) == *old(self),
            limit == zone_speed(val@),
    {
        let code = chars_of(val);
        match zone_limit(code.as_slice()) {
            Some(limit) => limit,
            None => UNSET,
        }
    }

    /// The speed, in km/h, that the value `val` of a `maxspeed` tag gives.
    /// The record plays no part and stays as it is.
    pub fn maxspeed_to_kmph(&mut self, val: &str) -> (speed: i32)
        ensures
            *final(self) == *old(self),
            speed == kmph(val@),
    {
        let text = chars_of(val);
        to_kmph(text.as_slice())
    }
}

impl Default for EdgeProperties {
    /// The record of a way of which nothing is known yet.
    fn default() -> (fresh: EdgeProperties)
        ensures
            fresh == EdgeProperties::unset(),
    {
        EdgeProperties::default()
    }
}

/// The zone code of the tag `key` = `val` that the table of speed limits
/// does not hold: only a `maxspeed` tag can have one.
pub open spec fn unknown_zone(key: Seq<char>, val: Seq<char>) -> Option<Seq<char>> {
    if key == "maxspeed"@ {
        unknown_code(val)
    } else {
        None
    }
}

/// The zone code of the tag `key` = `val` that the table of speed limits
/// does not hold, for whoever wants to report it. Applying such a tag sets
/// the speed of the record to -1.
pub fn unknown_speed_code(key: &str, val: &str) -> (code: Option<Vec<char>>)
    ensures
        match code {
            Some(word) => unknown_zone(key@, val@) == Some(word@),
            None => unknown_zone(key@, val@) is None,
        },
{
    let key_chars = chars_of(key);
    if !spells(key_chars.as_slice(), "maxspeed") {
        return None;
    }
    let val_chars = chars_of(val);
    match find_unknown_code(val_chars.as_slice()) {
        Some(word) => Some(slice_to_vec(word)),
        None => None,
    }
}

/// Whether `class` lets its means of transport pass: it is known and not
/// forbidden.
pub open spec fn grants(class: i8) -> bool {
    class != UNKNOWN && class != 0
}

/// Normalizing leaves nothing unknown, and the direction it derives names
/// exactly the directions in which cars are not forbidden.
pub proof fn lemma_normalized_is_resolved(p: EdgeProperties)
    requires
        p.wf(),
    ensures
        p.normalized().resolved(),
        p.normalized().wf(),
        p.normalized().maxspeed == p.maxspeed,
        ({
            let n = p.normalized();
            let forward = n.car_forward != CAR_FORBIDDEN;
            let backward = n.car_backward != CAR_FORBIDDEN;
            &&& n.direction == IN_NO_DIRECTION <==> !forward && !backward
            &&& n.direction == IN_POSITIVE_DIRECTION <==> forward && !backward
            &&& n.direction == IN_NEGATIVE_DIRECTION <==> !forward && backward
            &&& n.direction == IN_BOTH_DIRECTIONS <==> forward && backward
        }),
{
}

/// Normalizing a second time changes nothing.
pub proof fn lemma_normalized_twice(p: EdgeProperties)
    ensures
        p.normalized().normalized() == p.normalized(),
{
}

/// A class that a tag has set is kept by normalizing, whatever the other
/// classes hold.
pub proof fn lemma_known_class_is_kept(p: EdgeProperties)
    ensures
        p.foot != UNKNOWN ==> p.normalized().foot == p.foot,
        p.car_forward != UNKNOWN ==> p.normalized().car_forward == p.car_forward,
        p.car_backward != UNKNOWN ==> p.normalized().car_backward == p.car_backward,
        p.bike_forward != UNKNOWN ==> p.normalized().bike_forward == p.bike_forward,
        p.bike_backward != UNKNOWN ==> p.normalized().bike_backward == p.bike_backward,
{
}

/// Where no tag spoke of the backward direction, normalizing gives it the
/// class of the forward direction: the class that a tag set there, or
/// forbidden where none did.
pub proof fn lemma_forward_fills_backward(p: EdgeProperties)
    ensures
        p.bike_backward == UNKNOWN ==> p.normalized().bike_backward == p.normalized().bike_forward,
        p.bike_backward == UNKNOWN && p.bike_forward != UNKNOWN ==> p.normalized().bike_backward
            == p.bike_forward,
        p.car_backward == UNKNOWN ==> p.normalized().car_backward == p.normalized().car_forward,
        p.car_backward == UNKNOWN && p.car_forward != UNKNOWN ==> p.normalized().car_backward
            == p.car_forward,
{
}

/// A normalized record is accessible exactly where some class of the record
/// it came from grants access. So the record of a way without tags is not
/// accessible, to cars or to anyone.
pub proof fn lemma_accessible_once_granted(p: EdgeProperties)
    ensures
        p.normalized().is_accessible(false) <==> grants(p.foot) || grants(p.car_forward) || grants(
            p.car_backward,
        ) || grants(p.bike_forward) || grants(p.bike_backward),
        p.normalized().is_accessible(true) <==> grants(p.car_forward) || grants(p.car_backward),
        !EdgeProperties::unset().normalized().is_accessible(false),
        !EdgeProperties::unset().normalized().is_accessible(true),
{
}

/// In each direction in which cars may travel, the speed limit of a
/// normalized record is the one that a tag gave, or else that of the road's
/// class; in a direction closed to cars the limit stays as it was.
pub proof fn lemma_speed_limits(p: EdgeProperties)
    ensures
        ({
            let n = p.normalized();
            &&& n.car_forward != CAR_FORBIDDEN && p.maxspeed != UNSET ==> n.positive_speedlimit
                == p.maxspeed
            &&& n.car_forward != CAR_FORBIDDEN && p.maxspeed == UNSET ==> n.positive_speedlimit
                == class_speed(n.car_forward)
            &&& n.car_forward == CAR_FORBIDDEN ==> n.positive_speedlimit == p.positive_speedlimit
            &&& n.car_backward != CAR_FORBIDDEN && p.maxspeed != UNSET ==> n.negative_speedlimit
                == p.maxspeed
            &&& n.car_backward != CAR_FORBIDDEN && p.maxspeed == UNSET ==> n.negative_speedlimit
                == class_speed(n.car_backward)
            &&& n.car_backward == CAR_FORBIDDEN ==> n.negative_speedlimit == p.negative_speedlimit
        }),
{
}

/// A tag sets classes or the tagged speed, and nothing else: the speed
/// limits and the direction stay as they were until the record is
/// normalized. A tag leaves a well-formed record well formed.
pub proof fn lemma_with_tag_keeps_shape(p: EdgeProperties, key: Seq<char>, val: Seq<char>)
    ensures
        p.with_tag(key, val).positive_speedlimit == p.positive_speedlimit,
        p.with_tag(key, val).negative_speedlimit == p.negative_speedlimit,
        p.with_tag(key, val).direction == p.direction,
        p.wf() ==> p.with_tag(key, val).wf(),
{
}

/// Applying a tag a second time changes nothing.
pub proof fn lemma_same_tag_twice(p: EdgeProperties, key: Seq<char>, val: Seq<char>)
    ensures
        p.with_tag(key, val).with_tag(key, val) == p.with_tag(key, val),
{
}

/// The tag `oneway=yes` closes the backward direction to cars. It closes it
/// to bicycles too where no tag has spoken of them in that direction, and
/// leaves their class alone where one has. Nothing else changes.
pub proof fn lemma_oneway(p: EdgeProperties)
    ensures
        ({
            let q = p.with_tag("oneway"@, "yes"@);
            &&& q.car_backward == CAR_FORBIDDEN
            &&& p.bike_backward == UNKNOWN ==> q.bike_backward == BIKE_FORBIDDEN
            &&& p.bike_backward != UNKNOWN ==> q.bike_backward == p.bike_backward
            &&& q == EdgeProperties { car_backward: q.car_backward, bike_backward: q.bike_backward, ..p }
        }),
{
    reveal_strlit("oneway");
    reveal_strlit("highway");
    reveal_strlit("pedestrian");
    reveal_strlit("foot");
    reveal_strlit("cycleway");
    reveal_strlit("bicycle");
    reveal_strlit("busway");
    assert("highway"@.len() == 7);
    assert("pedestrian"@.len() == 10);
    assert("foot"@.len() == 4);
    assert("cycleway"@.len() == 8);
    assert("bicycle"@.len() == 7);
    assert("busway"@[0] == 'b');
}

/// A roundabout is one-way: the tag `junction=roundabout` does what the tag
/// `oneway=yes` does.
pub proof fn lemma_roundabout_is_oneway(p: EdgeProperties)
    ensures
        p.with_tag("junction"@, "roundabout"@) == p.with_tag("oneway"@, "yes"@),
        p.with_tag("junction"@, "roundabout"@) == p.one_way(),
{
    lemma_oneway(p);
    reveal_strlit("junction");
    reveal_strlit("highway");
    reveal_strlit("pedestrian");
    reveal_strlit("foot");
    reveal_strlit("cycleway");
    reveal_strlit("bicycle");
    reveal_strlit("busway");
    reveal_strlit("oneway");
    assert("highway"@.len() == 7);
    assert("pedestrian"@.len() == 10);
    assert("foot"@.len() == 4);
    assert("cycleway"@[0] == 'c');
    assert("bicycle"@.len() == 7);
    assert("busway"@.len() == 6);
    assert("oneway"@.len() == 6);
}

/// The keys `pedestrian` and `foot` say the same: with either, the value
/// `no` forbids pedestrians and any other value allows them.
pub proof fn lemma_pedestrian_is_foot(p: EdgeProperties, val: Seq<char>)
    ensures
        p.with_tag("pedestrian"@, val) == p.with_tag("foot"@, val),
        p.with_tag("foot"@, val).foot == (if val == "no"@ {
            FOOT_FORBIDDEN
        } else {
            FOOT_ALLOWED
        }),
{
    reveal_strlit("pedestrian");
    reveal_strlit("foot");
    reveal_strlit("highway");
    assert("highway"@.len() == 7);
}

/// On any record, the tag `highway=secondary` makes the road secondary for
/// cars, `highway=primary_link` makes it primary, and `highway=motorway`
/// makes it a motorway, closed to pedestrians and bicycles.
pub proof fn lemma_highway(p: EdgeProperties)
    ensures
        p.with_tag("highway"@, "secondary"@) == p.shared_road(CAR_SECONDARY),
        p.with_tag("highway"@, "primary_link"@) == p.shared_road(CAR_PRIMARY),
        p.with_tag("highway"@, "motorway"@) == p.cars_only_road(CAR_MOTORWAY),
        p.with_tag("highway"@, "motorway"@).foot == FOOT_FORBIDDEN,
{
    reveal_strlit("cycleway");
    reveal_strlit("path");
    reveal_strlit("footway");
    reveal_strlit("steps");
    reveal_strlit("pedestrian");
    reveal_strlit("primary");
    reveal_strlit("primary_link");
    reveal_strlit("secondary");
    reveal_strlit("tertiary");
    reveal_strlit("unclassified");
    reveal_strlit("residential");
    reveal_strlit("living_street");
    reveal_strlit("road");
    reveal_strlit("service");
    reveal_strlit("track");
    reveal_strlit("motorway");
    assert("secondary"@.len() == 9);
}

/// On any record, the tag `cycleway=opposite_lane` gives bicycles a lane
/// against the direction of the way, and `cycleway=track` a track in its
/// direction. Nothing else changes.
pub proof fn lemma_cycleway(p: EdgeProperties)
    ensures
        p.with_tag("cycleway"@, "opposite_lane"@) == (EdgeProperties {
            bike_backward: BIKE_LANE,
            ..p
        }),
        p.with_tag("cycleway"@, "track"@) == (EdgeProperties { bike_forward: BIKE_TRACK, ..p }),
{
    reveal_strlit("cycleway");
    reveal_strlit("highway");
    reveal_strlit("pedestrian");
    reveal_strlit("foot");
    reveal_strlit("track");
    reveal_strlit("opposite_track");
    reveal_strlit("opposite");
    reveal_strlit("share_busway");
    reveal_strlit("lane_left");
    reveal_strlit("opposite_lane");
    assert("highway"@.len() == 7);
    assert("pedestrian"@.len() == 10);
    assert("foot"@.len() == 4);
    assert("opposite_lane"@.len() == 13);
}

} // verus!
