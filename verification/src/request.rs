//! The command line, read: which operation is asked for, with which
//! parameters, or why the request cannot stand.

use vstd::prelude::*;
use vstd::string::StringExecFns;
use crate::color::{color_of, parse_color};
use crate::text::{
    chars_of, decimal, decimal_text, is_float, parse_i32, parse_u32, parsed_i32, parsed_u32,
    spells, spells_float,
};
use crate::transform::{lemma_solid, rotation_supported, solid};

verus! {

/// An image is this wide where the request names no width.
pub const DEFAULT_WIDTH: u32 = 800;

/// An image is this high where the request names no height.
pub const DEFAULT_HEIGHT: u32 = 600;

/// An image is filled with this color, white, where the request names none.
pub const DEFAULT_COLOR: [u8; 3] = [255, 255, 255];

/// What the program can do.
#[derive(Clone, Copy, Debug, PartialEq, Eq, Structural)]
pub enum Operation {
    Blur,
    Brighten,
    Crop,
    Rotate,
    Invert,
    Grayscale,
    Fractal,
    Generate,
}

/// A parameter that is read as a number.
#[derive(Clone, Copy, Debug, PartialEq, Eq, Structural)]
pub enum Parameter {
    BlurAmount,
    BrightnessAmount,
    X,
    Y,
    Width,
    Height,
    Degrees,
    Color,
}

/// Why a request cannot stand.
#[derive(Clone, Copy, Debug, PartialEq, Eq, Structural)]
pub enum RequestError {
    /// The operation's name is none of the eight.
    UnknownOperation,
    /// The operation does not take this many parameters.
    WrongParameterCount(Operation),
    /// The text of a parameter is not the number that it should be.
    InvalidParameter(Parameter),
    /// The image cannot be turned by this many degrees.
    UnsupportedRotation(u32),
}

/// A request that can be carried out.
#[derive(Debug, PartialEq, Eq)]
pub enum Request {
    Blur { infile: String, outfile: String, blur_amount: String },
    Brighten { infile: String, outfile: String, amount: i32 },
    Crop { infile: String, outfile: String, x: u32, y: u32, width: u32, height: u32 },
    Rotate { infile: String, outfile: String, degrees: u32 },
    Invert { infile: String, outfile: String },
    Grayscale { infile: String, outfile: String },
    Fractal { outfile: String },
    Generate { outfile: String, width: u32, height: u32, color: [u8; 3] },
}

/// A request as a value of mathematics: texts are sequences of characters.
/// The amount of blur stays text that spells a number with a fraction: what
/// number it is is found where the blur is made.
pub enum RequestView {
    Blur { infile: Seq<char>, outfile: Seq<char>, blur_amount: Seq<char> },
    Brighten { infile: Seq<char>, outfile: Seq<char>, amount: i32 },
    Crop { infile: Seq<char>, outfile: Seq<char>, x: u32, y: u32, width: u32, height: u32 },
    Rotate { infile: Seq<char>, outfile: Seq<char>, degrees: u32 },
    Invert { infile: Seq<char>, outfile: Seq<char> },
    Grayscale { infile: Seq<char>, outfile: Seq<char> },
    Fractal { outfile: Seq<char> },
    Generate { outfile: Seq<char>, width: u32, height: u32, color: Seq<u8> },
}

impl View for Request {
    type V = RequestView;

    open spec fn view(&self) -> RequestView {
        match *self {
            Request::Blur { infile, outfile, blur_amount } => RequestView::Blur {
                infile: infile@,
                outfile: outfile@,
                blur_amount: blur_amount@,
            },
            Request::Brighten { infile, outfile, amount } => RequestView::Brighten {
                infile: infile@,
                outfile: outfile@,
                amount,
            },
            Request::Crop { infile, outfile, x, y, width, height } => RequestView::Crop {
                infile: infile@,
                outfile: outfile@,
                x,
                y,
                width,
                height,
            },
            Request::Rotate { infile, outfile, degrees } => RequestView::Rotate {
                infile: infile@,
                outfile: outfile@,
                degrees,
            },
            Request::Invert { infile, outfile } => RequestView::Invert {
                infile: infile@,
                outfile: outfile@,
            },
            Request::Grayscale { infile, outfile } => RequestView::Grayscale {
                infile: infile@,
                outfile: outfile@,
            },
            Request::Fractal { outfile } => RequestView::Fractal { outfile: outfile@ },
            Request::Generate { outfile, width, height, color } => RequestView::Generate {
                outfile: outfile@,
                width,
                height,
                color: color@,
            },
        }
    }
}

impl RequestView {
    /// The operation that the request is for.
    pub open spec fn operation(self) -> Operation {
        match self {
            RequestView::Blur { .. } => Operation::Blur,
            RequestView::Brighten { .. } => Operation::Brighten,
            RequestView::Crop { .. } => Operation::Crop,
            RequestView::Rotate { .. } => Operation::Rotate,
            RequestView::Invert { .. } => Operation::Invert,
            RequestView::Grayscale { .. } => Operation::Grayscale,
            RequestView::Fractal { .. } => Operation::Fractal,
            RequestView::Generate { .. } => Operation::Generate,
        }
    }
}

impl Request {
    /// The operation that the request is for.
    pub fn operation(&self) -> (operation: Operation)
        ensures
            operation == self@.operation(),
    {
        match self {
            Request::Blur { .. } => Operation::Blur,
            Request::Brighten { .. } => Operation::Brighten,
            Request::Crop { .. } => Operation::Crop,
            Request::Rotate { .. } => Operation::Rotate,
            Request::Invert { .. } => Operation::Invert,
            Request::Grayscale { .. } => Operation::Grayscale,
            Request::Fractal { .. } => Operation::Fractal,
            Request::Generate { .. } => Operation::Generate,
        }
    }
}

impl Operation {
    /// The name by which the operation is asked for.
    pub open spec fn name(self) -> Seq<char> {
        match self {
            Operation::Blur => "blur"@,
            Operation::Brighten => "brighten"@,
            Operation::Crop => "crop"@,
            Operation::Rotate => "rotate"@,
            Operation::Invert => "invert"@,
            Operation::Grayscale => "grayscale"@,
            Operation::Fractal => "fractal"@,
            Operation::Generate => "generate"@,
        }
    }

    /// The operation with exactly this name, if there is one.
    pub open spec fn named(name: Seq<char>) -> Option<Operation> {
        if name == Operation::Blur.name() {
            Some(Operation::Blur)
        } else if name == Operation::Brighten.name() {
            Some(Operation::Brighten)
        } else if name == Operation::Crop.name() {
            Some(Operation::Crop)
        } else if name == Operation::Rotate.name() {
            Some(Operation::Rotate)
        } else if name == Operation::Invert.name() {
            Some(Operation::Invert)
        } else if name == Operation::Grayscale.name() {
            Some(Operation::Grayscale)
        } else if name == Operation::Fractal.name() {
            Some(Operation::Fractal)
        } else if name == Operation::Generate.name() {
            Some(Operation::Generate)
        } else {
            None
        }
    }

    /// Whether the operation takes `count` parameters.
    pub open spec fn accepts(self, count: nat) -> bool {
        match self {
            Operation::Blur => count == 3,
            Operation::Brighten => count == 3,
            Operation::Crop => count == 6,
            Operation::Rotate => count == 3,
            Operation::Invert => count == 2,
            Operation::Grayscale => count == 2,
            Operation::Fractal => count == 1,
            Operation::Generate => 1 <= count <= 4,
        }
    }

    /// The line that says how the operation is asked for.
    pub open spec fn usage_text(self) -> Seq<char> {
        match self {
            Operation::Blur => "Usage: blur <infile> <outfile> <blur_amount>"@,
            Operation::Brighten => "Usage: brighten <infile> <outfile> <brightness_amount>"@,
            Operation::Crop => "Usage: crop <infile> <outfile> <x> <y> <width> <height>"@,
            Operation::Rotate => "Usage: rotate <infile> <outfile> <degrees>"@,
            Operation::Invert => "Usage: invert <infile> <outfile>"@,
            Operation::Grayscale => "Usage: grayscale <infile> <outfile>"@,
            Operation::Fractal => "Usage: fractal <outfile>"@,
            Operation::Generate => "Usage: generate <outfile> [width height color]"@,
        }
    }

    /// The operation with exactly this name, if there is one.
    pub fn from_name(name: &str) -> (operation: Option<Operation>)
        ensures
            operation == Operation::named(name@),
    {
        let chars = chars_of(name);
        if spells(&chars, "blur") {
            Some(Operation::Blur)
        } else if spells(&chars, "brighten") {
            Some(Operation::Brighten)
        } else if spells(&chars, "crop") {
            Some(Operation::Crop)
        } else if spells(&chars, "rotate") {
            Some(Operation::Rotate)
        } else if spells(&chars, "invert") {
            Some(Operation::Invert)
        } else if spells(&chars, "grayscale") {
            Some(Operation::Grayscale)
        } else if spells(&chars, "fractal") {
            Some(Operation::Fractal)
        } else if spells(&chars, "generate") {
            Some(Operation::Generate)
        } else {
            None
        }
    }

    /// Whether the operation takes `count` parameters.
    pub fn takes(self, count: usize) -> (b: bool)
        ensures
            b == self.accepts(count as nat),
    {
        match self {
            Operation::Blur => count == 3,
            Operation::Brighten => count == 3,
            Operation::Crop => count == 6,
            Operation::Rotate => count == 3,
            Operation::Invert => count == 2,
            Operation::Grayscale => count == 2,
            Operation::Fractal => count == 1,
            Operation::Generate => 1 <= count && count <= 4,
        }
    }

    /// The line that says how the operation is asked for.
    pub fn usage(self) -> (line: &'static str)
        ensures
            line@ == self.usage_text(),
    {
        match self {
            Operation::Blur => "Usage: blur <infile> <outfile> <blur_amount>",
            Operation::Brighten => "Usage: brighten <infile> <outfile> <brightness_amount>",
            Operation::Crop => "Usage: crop <infile> <outfile> <x> <y> <width> <height>",
            Operation::Rotate => "Usage: rotate <infile> <outfile> <degrees>",
            Operation::Invert => "Usage: invert <infile> <outfile>",
            Operation::Grayscale => "Usage: grayscale <infile> <outfile>",
            Operation::Fractal => "Usage: fractal <outfile>",
            Operation::Generate => "Usage: generate <outfile> [width height color]",
        }
    }
}

impl Parameter {
    /// What to say where the parameter is not the number that it should be.
    pub open spec fn complaint_text(self) -> Seq<char> {
        match self {
            Parameter::BlurAmount => "Blur amount must be a number"@,
            Parameter::BrightnessAmount => "Brightness amount must be a number"@,
            Parameter::X => "x must be a number"@,
            Parameter::Y => "y must be a number"@,
            Parameter::Width => "width must be a number"@,
            Parameter::Height => "height must be a number"@,
            Parameter::Degrees => "Degrees must be a number"@,
            Parameter::Color => "color must be numbers from 0 to 255 with commas between them"@,
        }
    }

    /// What to say where the parameter is not the number that it should be.
    pub fn complaint(self) -> (line: &'static str)
        ensures
            line@ == self.complaint_text(),
    {
        match self {
            Parameter::BlurAmount => "Blur amount must be a number",
            Parameter::BrightnessAmount => "Brightness amount must be a number",
            Parameter::X => "x must be a number",
            Parameter::Y => "y must be a number",
            Parameter::Width => "width must be a number",
            Parameter::Height => "height must be a number",
            Parameter::Degrees => "Degrees must be a number",
            Parameter::Color => "color must be numbers from 0 to 255 with commas between them",
        }
    }
}

impl RequestError {
    /// The status with which the program ends: 1 for a request that is
    /// wrong as a whole, 101, that of a failure at run time, for a parameter
    /// that cannot be read.
    pub open spec fn status(self) -> int {
        match self {
            RequestError::InvalidParameter(_) => 101,
            _ => 1,
        }
    }

    /// What to tell the user, where `operation` is the name that was asked
    /// for.
    pub open spec fn message_text(self, operation: Seq<char>) -> Seq<char> {
        match self {
            RequestError::UnknownOperation => "Unknown operation: '"@ + operation + "'"@,
            RequestError::WrongParameterCount(op) => op.usage_text(),
            RequestError::InvalidParameter(parameter) => parameter.complaint_text(),
            RequestError::UnsupportedRotation(degrees) => "Rotation by "@ + decimal_text(
                degrees as nat,
            ) + " degrees is not supported."@,
        }
    }

    /// The status with which the program ends.
    pub fn exit_status(&self) -> (status: i32)
        ensures
            status == self.status(),
            status != 0,
    {
        match self {
            RequestError::InvalidParameter(_) => 101,
            _ => 1,
        }
    }

    /// What to tell the user, where `operation` is the name that was asked
    /// for.
    pub fn message(&self, operation: &str) -> (line: String)
        ensures
            line@ == self.message_text(operation@),
    {
        match self {
            RequestError::UnknownOperation => String::from_str("Unknown operation: '").concat(
                operation,
            ).concat("'"),
            RequestError::WrongParameterCount(op) => String::from_str(op.usage()),
            RequestError::InvalidParameter(parameter) => String::from_str(parameter.complaint()),
            RequestError::UnsupportedRotation(degrees) => String::from_str("Rotation by ").concat(
                decimal(*degrees).as_str(),
            ).concat(" degrees is not supported."),
        }
    }
}

/// The texts of the parameters.
pub open spec fn texts(parameters: Seq<String>) -> Seq<Seq<char>> {
    Seq::new(parameters.len(), |i: int| parameters[i]@)
}

/// The number in parameter `index`, or the default where the request has
/// no such parameter.
pub open spec fn number_or(p: Seq<Seq<char>>, index: int, default: u32) -> Option<u32> {
    if index < p.len() {
        parsed_u32(p[index])
    } else {
        Some(default)
    }
}

/// The color in parameter `index`, or the default where the request has no
/// such parameter.
pub open spec fn color_or(p: Seq<Seq<char>>, index: int, default: Seq<u8>) -> Option<Seq<u8>> {
    if index < p.len() {
        color_of(p[index])
    } else {
        Some(default)
    }
}

/// What a request for `op` with the parameters `p` asks for, where `op`
/// takes that many parameters. The numbers are read in the order in which
/// they stand, and the first that cannot be read decides the error.
pub open spec fn arguments_of(op: Operation, p: Seq<Seq<char>>) -> Result<
    RequestView,
    RequestError,
> {
    match op {
        Operation::Blur => if spells_float(p[2]) {
            Ok(RequestView::Blur { infile: p[0], outfile: p[1], blur_amount: p[2] })
        } else {
            Err(RequestError::InvalidParameter(Parameter::BlurAmount))
        },
        Operation::Brighten => match parsed_i32(p[2]) {
            Some(amount) => Ok(RequestView::Brighten { infile: p[0], outfile: p[1], amount }),
            None => Err(RequestError::InvalidParameter(Parameter::BrightnessAmount)),
        },
        Operation::Crop => if parsed_u32(p[2]) is None {
            Err(RequestError::InvalidParameter(Parameter::X))
        } else if parsed_u32(p[3]) is None {
            Err(RequestError::InvalidParameter(Parameter::Y))
        } else if parsed_u32(p[4]) is None {
            Err(RequestError::InvalidParameter(Parameter::Width))
        } else if parsed_u32(p[5]) is None {
            Err(RequestError::InvalidParameter(Parameter::Height))
        } else {
            Ok(
                RequestView::Crop {
                    infile: p[0],
                    outfile: p[1],
                    x: parsed_u32(p[2])->0,
                    y: parsed_u32(p[3])->0,
                    width: parsed_u32(p[4])->0,
                    height: parsed_u32(p[5])->0,
                },
            )
        },
        Operation::Rotate => match parsed_u32(p[2]) {
            None => Err(RequestError::InvalidParameter(Parameter::Degrees)),
            Some(degrees) => if rotation_supported(degrees) {
                Ok(RequestView::Rotate { infile: p[0], outfile: p[1], degrees })
            } else {
                Err(RequestError::UnsupportedRotation(degrees))
            },
        },
        Operation::Invert => Ok(RequestView::Invert { infile: p[0], outfile: p[1] }),
        Operation::Grayscale => Ok(RequestView::Grayscale { infile: p[0], outfile: p[1] }),
        Operation::Fractal => Ok(RequestView::Fractal { outfile: p[0] }),
        Operation::Generate => if number_or(p, 1, DEFAULT_WIDTH) is None {
            Err(RequestError::InvalidParameter(Parameter::Width))
        } else if number_or(p, 2, DEFAULT_HEIGHT) is None {
            Err(RequestError::InvalidParameter(Parameter::Height))
        } else if color_or(p, 3, DEFAULT_COLOR@) is None {
            Err(RequestError::InvalidParameter(Parameter::Color))
        } else {
            Ok(
                RequestView::Generate {
                    outfile: p[0],
                    width: number_or(p, 1, DEFAULT_WIDTH)->0,
                    height: number_or(p, 2, DEFAULT_HEIGHT)->0,
                    color: color_or(p, 3, DEFAULT_COLOR@)->0,
                },
            )
        },
    }
}

/// What the command line asks for: the operation of that name with those
/// parameters, where there is such an operation, it takes that many
/// parameters, and each parameter is what it should be.
pub open spec fn request_of(operation: Seq<char>, p: Seq<Seq<char>>) -> Result<
    RequestView,
    RequestError,
> {
    match Operation::named(operation) {
        None => Err(RequestError::UnknownOperation),
        Some(op) => if op.accepts(p.len()) {
            arguments_of(op, p)
        } else {
            Err(RequestError::WrongParameterCount(op))
        },
    }
}

/// Reads the parameters of `op`, of which there are as many as it takes.
fn parse_arguments(op: Operation, parameters: &Vec<String>) -> (result: Result<
    Request,
    RequestError,
>)
    requires
        op.accepts(parameters@.len()),
    ensures
        match result {
            Ok(request) => arguments_of(op, texts(parameters@)) == Ok::<RequestView, RequestError>(
                request@,
            ),
            Err(error) => arguments_of(op, texts(parameters@)) == Err::<RequestView, RequestError>(
                error,
            ),
        },
{
    let ghost p = texts(parameters@);
    match op {
        Operation::Blur => if is_float(parameters[2].as_str()) {
            Ok(
                Request::Blur {
                    infile: parameters[0].clone(),
                    outfile: parameters[1].clone(),
                    blur_amount: parameters[2].clone(),
                },
            )
        } else {
            Err(RequestError::InvalidParameter(Parameter::BlurAmount))
        },
        Operation::Brighten => match parse_i32(parameters[2].as_str()) {
            Some(amount) => Ok(
                Request::Brighten {
                    infile: parameters[0].clone(),
                    outfile: parameters[1].clone(),
                    amount,
                },
            ),
            None => Err(RequestError::InvalidParameter(Parameter::BrightnessAmount)),
        },
        Operation::Crop => {
            let x = match parse_u32(parameters[2].as_str()) {
                Some(x) => x,
                None => { return Err(RequestError::InvalidParameter(Parameter::X)); },
            };
            let y = match parse_u32(parameters[3].as_str()) {
                Some(y) => y,
                None => { return Err(RequestError::InvalidParameter(Parameter::Y)); },
            };
            let width = match parse_u32(parameters[4].as_str()) {
                Some(width) => width,
                None => { return Err(RequestError::InvalidParameter(Parameter::Width)); },
            };
            let height = match parse_u32(parameters[5].as_str()) {
                Some(height) => height,
                None => { return Err(RequestError::InvalidParameter(Parameter::Height)); },
            };
            Ok(
                Request::Crop {
                    infile: parameters[0].clone(),
                    outfile: parameters[1].clone(),
                    x,
                    y,
                    width,
                    height,
                },
            )
        },
        Operation::Rotate => match parse_u32(parameters[2].as_str()) {
            None => Err(RequestError::InvalidParameter(Parameter::Degrees)),
            Some(degrees) => if degrees == 90 || degrees == 180 || degrees == 270 {
                Ok(
                    Request::Rotate {
                        infile: parameters[0].clone(),
                        outfile: parameters[1].clone(),
                        degrees,
                    },
                )
            } else {
                Err(RequestError::UnsupportedRotation(degrees))
            },
        },
        Operation::Invert => Ok(
            Request::Invert { infile: parameters[0].clone(), outfile: parameters[1].clone() },
        ),
        Operation::Grayscale => Ok(
            Request::Grayscale { infile: parameters[0].clone(), outfile: parameters[1].clone() },
        ),
        Operation::Fractal => Ok(Request::Fractal { outfile: parameters[0].clone() }),
        Operation::Generate => {
            let width = if parameters.len() > 1 {
                match parse_u32(parameters[1].as_str()) {
                    Some(width) => width,
                    None => { return Err(RequestError::InvalidParameter(Parameter::Width)); },
                }
            } else {
                DEFAULT_WIDTH
            };
            let height = if parameters.len() > 2 {
                match parse_u32(parameters[2].as_str()) {
                    Some(height) => height,
                    None => { return Err(RequestError::InvalidParameter(Parameter::Height)); },
                }
            } else {
                DEFAULT_HEIGHT
            };
            let color = if parameters.len() > 3 {
                match parse_color(parameters[3].as_str()) {
                    Some(color) => color,
                    None => { return Err(RequestError::InvalidParameter(Parameter::Color)); },
                }
            } else {
                DEFAULT_COLOR
            };
            Ok(Request::Generate { outfile: parameters[0].clone(), width, height, color })
        },
    }
}

/// Reads a command line: the name of an operation and its parameters.
///
/// Nothing is looked at beyond what decides the answer: an unknown name is
/// reported whatever the parameters are, a wrong number of them whatever
/// they hold.
pub fn parse_request(operation: &str, parameters: &Vec<String>) -> (result: Result<
    Request,
    RequestError,
>)
    ensures
        match result {
            Ok(request) => request_of(operation@, texts(parameters@)) == Ok::<
                RequestView,
                RequestError,
            >(request@),
            Err(error) => request_of(operation@, texts(parameters@)) == Err::<
                RequestView,
                RequestError,
            >(error),
        },
{
    match Operation::from_name(operation) {
        None => Err(RequestError::UnknownOperation),
        Some(op) => if op.takes(parameters.len()) {
            parse_arguments(op, parameters)
        } else {
            Err(RequestError::WrongParameterCount(op))
        },
    }
}

/// The eight names are eight different texts, none of them empty: each
/// names its own operation, and the empty text names none.
pub proof fn law_names_are_distinct(op: Operation)
    ensures
        Operation::named(op.name()) == Some(op),
        op.name().len() > 0,
        Operation::named(Seq::<char>::empty()) is None,
{
    reveal_strlit("blur");
    reveal_strlit("brighten");
    reveal_strlit("crop");
    reveal_strlit("rotate");
    reveal_strlit("invert");
    reveal_strlit("grayscale");
    reveal_strlit("fractal");
    reveal_strlit("generate");
    assert("blur"@.len() == 4 && "blur"@[0] == 'b');
    assert("crop"@.len() == 4 && "crop"@[0] == 'c');
    assert("rotate"@.len() == 6 && "rotate"@[0] == 'r');
    assert("invert"@.len() == 6 && "invert"@[0] == 'i');
    assert("fractal"@.len() == 7);
    assert("brighten"@.len() == 8 && "brighten"@[0] == 'b');
    assert("generate"@.len() == 8 && "generate"@[0] == 'g');
    assert("grayscale"@.len() == 9);
    assert(Seq::<char>::empty().len() == 0);
}

/// A request that stands is for the operation that was named, and has as
/// many parameters as that operation takes.
pub proof fn law_request_fits_its_operation(operation: Seq<char>, p: Seq<Seq<char>>)
    requires
        request_of(operation, p) is Ok,
    ensures
        Operation::named(operation) == Some(request_of(operation, p)->Ok_0.operation()),
        request_of(operation, p)->Ok_0.operation().accepts(p.len()),
        request_of(operation, p)->Ok_0 matches RequestView::Rotate { degrees, .. }
            ==> rotation_supported(degrees),
{
}

/// A request with too few or too many parameters for its operation is
/// refused before any parameter is read, with status 1.
pub proof fn law_wrong_count_is_refused(op: Operation, p: Seq<Seq<char>>)
    requires
        !op.accepts(p.len()),
    ensures
        request_of(op.name(), p) == Err::<RequestView, RequestError>(
            RequestError::WrongParameterCount(op),
        ),
        RequestError::WrongParameterCount(op).status() == 1,
{
    law_names_are_distinct(op);
}

/// A request for a name that is none of the eight, the empty name among
/// them, is refused whatever its parameters are, with status 1.
pub proof fn law_unknown_name_is_refused(operation: Seq<char>, p: Seq<Seq<char>>)
    requires
        operation.len() == 0 || forall|op: Operation| operation != #[trigger] op.name(),
    ensures
        request_of(operation, p) == Err::<RequestView, RequestError>(
            RequestError::UnknownOperation,
        ),
        RequestError::UnknownOperation.status() == 1,
{
    law_names_are_distinct(Operation::Blur);
    if operation.len() == 0 {
        assert(operation =~= Seq::<char>::empty());
    } else {
        assert(operation != Operation::Blur.name());
        assert(operation != Operation::Brighten.name());
        assert(operation != Operation::Crop.name());
        assert(operation != Operation::Rotate.name());
        assert(operation != Operation::Invert.name());
        assert(operation != Operation::Grayscale.name());
        assert(operation != Operation::Fractal.name());
        assert(operation != Operation::Generate.name());
    }
}

/// A request to turn an image by a number of degrees other than 90, 180 and
/// 270 is refused, with status 1 and a message that names the number.
pub proof fn law_unsupported_rotation_is_refused(
    infile: Seq<char>,
    outfile: Seq<char>,
    angle: Seq<char>,
    degrees: u32,
)
    requires
        parsed_u32(angle) == Some(degrees),
        degrees != 90 && degrees != 180 && degrees != 270,
    ensures
        request_of(Operation::Rotate.name(), seq![infile, outfile, angle]) == Err::<
            RequestView,
            RequestError,
        >(RequestError::UnsupportedRotation(degrees)),
        RequestError::UnsupportedRotation(degrees).status() == 1,
        RequestError::UnsupportedRotation(degrees).message_text(Operation::Rotate.name())
            == "Rotation by "@ + decimal_text(degrees as nat) + " degrees is not supported."@,
{
    law_names_are_distinct(Operation::Rotate);
}

/// A request to generate an image that names no color asks for white, and
/// every sample of the image that it asks for is 255.
pub proof fn law_generate_defaults_to_white(p: Seq<Seq<char>>)
    requires
        1 <= p.len() <= 3,
        request_of(Operation::Generate.name(), p) is Ok,
    ensures
        request_of(Operation::Generate.name(), p) matches Ok(
            RequestView::Generate { width, height, color, .. },
        ) && color == DEFAULT_COLOR@ && forall|x: int, y: int, c: int|
            solid(width as nat, height as nat, color).has(x, y, c) ==> #[trigger] solid(
                width as nat,
                height as nat,
                color,
            ).sample(x, y, c) == 255,
{
    law_names_are_distinct(Operation::Generate);
    match request_of(Operation::Generate.name(), p) {
        Ok(RequestView::Generate { width, height, color, .. }) => {
            lemma_solid(width as nat, height as nat, color);
        },
        _ => {},
    }
}

} // verus!
