use vstd::prelude::*;

use crate::vector::{axis_index, axis_of, lemma_axis_decoding, spec_axis, Axis, Vec3};

verus! {

/// The column of the flight log that a `(tip, id)` query asks for.
#[derive(Clone, Copy, Debug, PartialEq, Eq, Structural)]
pub enum HistoryField {
    Position(Axis),
    Velocity(Axis),
    Acceleration(Axis),
    /// The orientation; the log holds radians, users read it in degrees.
    Angle(Axis),
    Mass,
    ThrustVector(Axis),
    Drag,
}

/// Why a flight-log query was refused.
#[derive(Clone, Copy, Debug, PartialEq, Eq, Structural)]
pub enum HistoryError {
    /// The quantity exists but the component index is not 0, 1 or 2.
    InvalidFetchId,
    /// No quantity has this type number.
    InvalidFetchType,
}

/// What a `(tip, id)` query selects: types 0 to 3 and 5 are vectors
/// (position, velocity, acceleration, orientation, thrust direction) and need
/// a component index; types 4 (mass) and 6 (drag) are scalars and ignore it.
pub open spec fn spec_history_field(tip: i8, id: i8) -> Result<HistoryField, HistoryError> {
    if tip == 4 {
        Ok(HistoryField::Mass)
    } else if tip == 6 {
        Ok(HistoryField::Drag)
    } else if !(0 <= tip <= 3 || tip == 5) {
        Err(HistoryError::InvalidFetchType)
    } else {
        match spec_axis(id) {
            None => Err(HistoryError::InvalidFetchId),
            Some(a) => Ok(
                if tip == 0 {
                    HistoryField::Position(a)
                } else if tip == 1 {
                    HistoryField::Velocity(a)
                } else if tip == 2 {
                    HistoryField::Acceleration(a)
                } else if tip == 3 {
                    HistoryField::Angle(a)
                } else {
                    HistoryField::ThrustVector(a)
                },
            ),
        }
    }
}

/// The type number under which a query asks for a column: 0 position,
/// 1 velocity, 2 acceleration, 3 orientation, 4 mass, 5 thrust direction,
/// 6 drag.
pub open spec fn type_number(f: HistoryField) -> i8 {
    match f {
        HistoryField::Position(_) => 0,
        HistoryField::Velocity(_) => 1,
        HistoryField::Acceleration(_) => 2,
        HistoryField::Angle(_) => 3,
        HistoryField::Mass => 4,
        HistoryField::ThrustVector(_) => 5,
        HistoryField::Drag => 6,
    }
}

/// The axis of a vector column; scalar columns (mass, drag) have none.
pub open spec fn field_axis(f: HistoryField) -> Option<Axis> {
    match f {
        HistoryField::Position(a) => Some(a),
        HistoryField::Velocity(a) => Some(a),
        HistoryField::Acceleration(a) => Some(a),
        HistoryField::Angle(a) => Some(a),
        HistoryField::Mass => None,
        HistoryField::ThrustVector(a) => Some(a),
        HistoryField::Drag => None,
    }
}

/// A query names a column by its type number and, for a vector, the index
/// of its component. Decoding inverts that naming:
/// - a column that a query decodes to has the query's type number, and the
///   axis of a vector column has the query's component index;
/// - the type numbers 0 to 6 are the only ones known, and a vector type with
///   a component index outside 0..=2 is the only other refusal;
/// - every column is reached by its own type number and component index
///   (and a scalar column by its type number with any index).
pub proof fn lemma_query_decoding(tip: i8, id: i8, f: HistoryField)
    ensures
        spec_history_field(tip, id) matches Ok(g) ==> type_number(g) == tip,
        spec_history_field(tip, id) matches Ok(g) ==> (field_axis(g) matches Some(a) ==> axis_index(a) == id),
        spec_history_field(tip, id) == Err::<HistoryField, HistoryError>(HistoryError::InvalidFetchType)
            <==> !(0 <= tip <= 6),
        spec_history_field(tip, id) == Err::<HistoryField, HistoryError>(HistoryError::InvalidFetchId)
            <==> ((0 <= tip <= 3 || tip == 5) && !(0 <= id <= 2)),
        field_axis(f) matches Some(a) ==> spec_history_field(type_number(f), axis_index(a)) == Ok::<HistoryField, HistoryError>(f),
        field_axis(f) is None ==> spec_history_field(type_number(f), id) == Ok::<HistoryField, HistoryError>(f),
        0 <= id <= 2 ==> (spec_history_field(0, id) == Ok::<HistoryField, HistoryError>(HistoryField::Position(spec_axis(id)->0))),
        0 <= id <= 2 ==> (spec_history_field(1, id) == Ok::<HistoryField, HistoryError>(HistoryField::Velocity(spec_axis(id)->0))),
        0 <= id <= 2 ==> (spec_history_field(2, id) == Ok::<HistoryField, HistoryError>(HistoryField::Acceleration(spec_axis(id)->0))),
        0 <= id <= 2 ==> (spec_history_field(3, id) == Ok::<HistoryField, HistoryError>(HistoryField::Angle(spec_axis(id)->0))),
        0 <= id <= 2 ==> (spec_history_field(5, id) == Ok::<HistoryField, HistoryError>(HistoryField::ThrustVector(spec_axis(id)->0))),
{
    lemma_axis_decoding(id, Axis::X);
    if let Some(a) = field_axis(f) {
        lemma_axis_decoding(axis_index(a), a);
    }
}

/// Decodes the `(tip, id)` pair of a flight-log query.
pub fn history_field(tip: i8, id: i8) -> (res: Result<HistoryField, HistoryError>)
    ensures
        res == spec_history_field(tip, id),
        res matches Ok(f) ==> type_number(f) == tip,
        res matches Ok(f) ==> (field_axis(f) matches Some(a) ==> axis_index(a) == id),
        res is Err <==> !(0 <= tip <= 6) || ((0 <= tip <= 3 || tip == 5) && !(0 <= id <= 2)),
{
    proof {
        lemma_query_decoding(tip, id, HistoryField::Mass);
    }
    match tip {
        4 => Ok(HistoryField::Mass),
        6 => Ok(HistoryField::Drag),
        0 | 1 | 2 | 3 | 5 => match axis_of(id) {
            None => Err(HistoryError::InvalidFetchId),
            Some(a) => Ok(
                match tip {
                    0 => HistoryField::Position(a),
                    1 => HistoryField::Velocity(a),
                    2 => HistoryField::Acceleration(a),
                    3 => HistoryField::Angle(a),
                    _ => HistoryField::ThrustVector(a),
                },
            ),
        },
        _ => Err(HistoryError::InvalidFetchType),
    }
}

impl HistoryField {
    /// Whether the column is the orientation, which the simulator's users
    /// read in degrees while the log holds radians.
    pub fn is_angle(&self) -> (b: bool)
        ensures
            b == (*self is Angle),
    {
        match self {
            HistoryField::Angle(_) => true,
            _ => false,
        }
    }
}

impl HistoryError {
    /// The text of the error that the query reports.
    pub open spec fn spec_message(self) -> Seq<char> {
        match self {
            HistoryError::InvalidFetchId => "Invalid get_history fetch ID"@,
            HistoryError::InvalidFetchType => "Invalid get_history fetch type"@,
        }
    }

    /// The two refusals report these texts.
    pub proof fn lemma_messages()
        ensures
            HistoryError::InvalidFetchId.spec_message() == "Invalid get_history fetch ID"@,
            HistoryError::InvalidFetchType.spec_message() == "Invalid get_history fetch type"@,
    {
    }

    /// The text of the error that the query reports.
    pub fn message(&self) -> (m: &'static str)
        ensures
            m@ == self.spec_message(),
    {
        match self {
            HistoryError::InvalidFetchId => "Invalid get_history fetch ID",
            HistoryError::InvalidFetchType => "Invalid get_history fetch type",
        }
    }
}

/// What the simulator records of the rocket at the end of each step.
#[derive(Clone, Copy, Debug)]
pub struct RocketState<S> {
    /// Orientation, in radians.
    pub ang: Vec3<S>,
    pub pos: Vec3<S>,
    pub vel: Vec3<S>,
    pub acc: Vec3<S>,
    pub mass: S,
    pub thrust: S,
    /// Recorded as the step's index times the time increment `dt`, so it is
    /// in the units of `dt` rather than a bare count of steps.
    pub time: S,
    /// Direction of the engine relative to the body.
    pub thrust_vec: Vec3<S>,
    pub drag: S,
}

impl<S: Copy> RocketState<S> {
    /// The value of one column in this record.
    pub open spec fn spec_field(self, f: HistoryField) -> S {
        match f {
            HistoryField::Position(a) => self.pos.spec_component(a),
            HistoryField::Velocity(a) => self.vel.spec_component(a),
            HistoryField::Acceleration(a) => self.acc.spec_component(a),
            HistoryField::Angle(a) => self.ang.spec_component(a),
            HistoryField::Mass => self.mass,
            HistoryField::ThrustVector(a) => self.thrust_vec.spec_component(a),
            HistoryField::Drag => self.drag,
        }
    }

    /// Each column of a record reads its own quantity and component.
    pub proof fn lemma_columns(self)
        ensures
            self.spec_field(HistoryField::Position(Axis::X)) == self.pos.x,
            self.spec_field(HistoryField::Position(Axis::Y)) == self.pos.y,
            self.spec_field(HistoryField::Position(Axis::Z)) == self.pos.z,
            self.spec_field(HistoryField::Velocity(Axis::X)) == self.vel.x,
            self.spec_field(HistoryField::Velocity(Axis::Y)) == self.vel.y,
            self.spec_field(HistoryField::Velocity(Axis::Z)) == self.vel.z,
            self.spec_field(HistoryField::Acceleration(Axis::X)) == self.acc.x,
            self.spec_field(HistoryField::Acceleration(Axis::Y)) == self.acc.y,
            self.spec_field(HistoryField::Acceleration(Axis::Z)) == self.acc.z,
            self.spec_field(HistoryField::Angle(Axis::X)) == self.ang.x,
            self.spec_field(HistoryField::Angle(Axis::Y)) == self.ang.y,
            self.spec_field(HistoryField::Angle(Axis::Z)) == self.ang.z,
            self.spec_field(HistoryField::Mass) == self.mass,
            self.spec_field(HistoryField::ThrustVector(Axis::X)) == self.thrust_vec.x,
            self.spec_field(HistoryField::ThrustVector(Axis::Y)) == self.thrust_vec.y,
            self.spec_field(HistoryField::ThrustVector(Axis::Z)) == self.thrust_vec.z,
            self.spec_field(HistoryField::Drag) == self.drag,
    {
    }

    /// The value of one column in this record.
    pub fn field(&self, f: HistoryField) -> (v: S)
        ensures
            v == self.spec_field(f),
    {
        match f {
            HistoryField::Position(a) => self.pos.component(a),
            HistoryField::Velocity(a) => self.vel.component(a),
            HistoryField::Acceleration(a) => self.acc.component(a),
            HistoryField::Angle(a) => self.ang.component(a),
            HistoryField::Mass => self.mass,
            HistoryField::ThrustVector(a) => self.thrust_vec.component(a),
            HistoryField::Drag => self.drag,
        }
    }
}

/// The column `f` of a log, one value per record, in the order of the records.
pub open spec fn spec_column<S: Copy>(log: Seq<RocketState<S>>, f: HistoryField) -> Seq<S> {
    log.map_values(|r: RocketState<S>| r.spec_field(f))
}

/// Recording a step extends every column of the log by that step's value and
/// leaves the earlier values as they were.
pub proof fn lemma_column_of_recorded_step<S: Copy>(
    log: Seq<RocketState<S>>,
    state: RocketState<S>,
    f: HistoryField,
)
    ensures
        spec_column(log.push(state), f) == spec_column(log, f).push(state.spec_field(f)),
        spec_column(log, f).len() == log.len(),
{
    assert(spec_column(log.push(state), f) =~= spec_column(log, f).push(state.spec_field(f)));
}

/// A column has one value per record of the log, and its `i`-th value is
/// column `f` of the `i`-th record.
pub proof fn lemma_column_entries<S: Copy>(log: Seq<RocketState<S>>, f: HistoryField)
    ensures
        spec_column(log, f).len() == log.len(),
        forall|i: int| 0 <= i < log.len() ==> #[trigger] spec_column(log, f)[i] == log[i].spec_field(f),
{
}

/// Reads the column `f` out of a log.
pub fn history_column<S: Copy>(log: &Vec<RocketState<S>>, f: HistoryField) -> (col: Vec<S>)
    ensures
        col@ == spec_column(log@, f),
{
    let mut col: Vec<S> = Vec::new();
    let n = log.len();
    for i in 0..n
        invariant
            n == log@.len(),
            col@ == spec_column(log@.take(i as int), f),
    {
        proof {
            assert(log@.take(i + 1) == log@.take(i as int).push(log@[i as int]));
        }
        col.push(log[i].field(f));
        proof {
            assert(spec_column(log@.take(i + 1), f) =~= spec_column(log@.take(i as int), f).push(
                log@[i as int].spec_field(f),
            ));
        }
    }
    proof {
        assert(log@.take(n as int) == log@);
    }
    col
}

} // verus!
