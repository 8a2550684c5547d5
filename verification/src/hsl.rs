//! The state of the HSL colour picker: the colour it shows (hue, saturation,
//! luminosity) and where its cursor stands, with the decisions that the picker
//! takes on a poke from outside and on mouse events.
//!
//! The picker is generic over the number type `T` of its channels: the widget
//! around it instantiates it with floating-point ratios, and does the arithmetic
//! on them (mapping a click to ratios, ratios to a cursor position) itself.
use vstd::prelude::*;

verus! {

/// How the two coordinates of a pixel of the colour box, as ratios, become the
/// three HSL channels: one or two channels are fixed, the others follow the pixel.
#[derive(Clone, Copy, Debug)]
pub enum Converter<T> {
    /// Fixed hue; saturation follows `x`, luminosity follows `y`.
    HslH(T),
    /// Fixed saturation; hue follows `x`, luminosity follows `y`.
    HslS(T),
    /// Fixed luminosity; hue follows `x`, saturation follows `y`.
    HslL(T),
    /// Fixed saturation and luminosity; hue follows `x`.
    HslSL(T, T),
}

/// The channels of the pixel at ratios `(x, y)` under a converter, as
/// `(hue, saturation, luminosity)`.
pub open spec fn converter_channels<T>(converter: Converter<T>, x: T, y: T) -> (T, T, T) {
    match converter {
        Converter::HslH(hue) => (hue, x, y),
        Converter::HslS(saturation) => (x, saturation, y),
        Converter::HslL(luminosity) => (x, y, luminosity),
        Converter::HslSL(saturation, luminosity) => (x, saturation, luminosity),
    }
}

impl<T: Copy> Converter<T> {
    /// The `(hue, saturation, luminosity)` of the pixel at ratios `(x_ratio, y_ratio)`.
    pub fn hsl_arguments(&self, x_ratio: T, y_ratio: T) -> (channels: (T, T, T))
        ensures
            channels == converter_channels(*self, x_ratio, y_ratio),
    {
        match self {
            Converter::HslH(hue) => (*hue, x_ratio, y_ratio),
            Converter::HslS(saturation) => (x_ratio, *saturation, y_ratio),
            Converter::HslL(luminosity) => (x_ratio, y_ratio, *luminosity),
            Converter::HslSL(saturation, luminosity) => (x_ratio, *saturation, *luminosity),
        }
    }
}

/// The fixed channels of a converter do not depend on the pixel.
pub proof fn lemma_converter_fixes_its_channels<T>(converter: Converter<T>, x1: T, y1: T, x2: T, y2: T)
    ensures
        converter is HslH ==> converter_channels(converter, x1, y1).0 == converter_channels(
            converter,
            x2,
            y2,
        ).0,
        converter is HslS ==> converter_channels(converter, x1, y1).1 == converter_channels(
            converter,
            x2,
            y2,
        ).1,
        converter is HslL ==> converter_channels(converter, x1, y1).2 == converter_channels(
            converter,
            x2,
            y2,
        ).2,
        converter is HslSL ==> converter_channels(converter, x1, y1).1 == converter_channels(
            converter,
            x2,
            y2,
        ).1 && converter_channels(converter, x1, y1).2 == converter_channels(converter, x2, y2).2,
{
}

/// Each converter keeps its fixed channels in place and hands the pixel's `x`
/// ratio, then its `y` ratio, to the remaining channels in hue, saturation,
/// luminosity order.
pub proof fn lemma_converter_channel_order<T>(converter: Converter<T>, x: T, y: T)
    ensures
        converter matches Converter::HslH(h) ==> converter_channels(converter, x, y) == (h, x, y),
        converter matches Converter::HslS(s) ==> converter_channels(converter, x, y) == (x, s, y),
        converter matches Converter::HslL(l) ==> converter_channels(converter, x, y) == (x, y, l),
        converter matches Converter::HslSL(s, l) ==> converter_channels(converter, x, y) == (
            x,
            s,
            l,
        ),
{
}

/// A new value for one channel of the picker.
#[derive(Clone, Copy, Debug)]
pub enum WhichHSL<T> {
    Hue(T),
    Saturation(T),
    Luminosity(T),
}

/// What the picker holds, as plain values.
pub struct HslModel<T> {
    pub hue: T,
    pub saturation: T,
    pub luminosity: T,
    pub cursor: (T, T),
}

/// The model after one channel was set.
pub open spec fn with_channel<T>(model: HslModel<T>, value: WhichHSL<T>) -> HslModel<T> {
    match value {
        WhichHSL::Hue(v) => HslModel { hue: v, ..model },
        WhichHSL::Saturation(v) => HslModel { saturation: v, ..model },
        WhichHSL::Luminosity(v) => HslModel { luminosity: v, ..model },
    }
}

/// The model after the pointer picked a saturation and luminosity at a cursor position.
pub open spec fn with_pick<T>(model: HslModel<T>, cursor: (T, T), saturation: T, luminosity: T) -> HslModel<T> {
    HslModel { cursor: cursor, saturation: saturation, luminosity: luminosity, ..model }
}

/// Setting a channel gives it the new value and keeps the other two channels
/// and the cursor.
pub proof fn lemma_with_channel_sets_only_its_channel<T>(model: HslModel<T>, value: WhichHSL<T>)
    ensures
        value matches WhichHSL::Hue(v) ==> with_channel(model, value).hue == v
            && with_channel(model, value).saturation == model.saturation && with_channel(
            model,
            value,
        ).luminosity == model.luminosity,
        value matches WhichHSL::Saturation(v) ==> with_channel(model, value).saturation == v
            && with_channel(model, value).hue == model.hue && with_channel(model, value).luminosity
            == model.luminosity,
        value matches WhichHSL::Luminosity(v) ==> with_channel(model, value).luminosity == v
            && with_channel(model, value).hue == model.hue && with_channel(model, value).saturation
            == model.saturation,
        with_channel(model, value).cursor == model.cursor,
{
}

/// A pick sets the cursor, saturation and luminosity to the pointer's, and
/// keeps the hue.
pub proof fn lemma_with_pick_fields<T>(model: HslModel<T>, cursor: (T, T), saturation: T, luminosity: T)
    ensures
        with_pick(model, cursor, saturation, luminosity).cursor == cursor,
        with_pick(model, cursor, saturation, luminosity).saturation == saturation,
        with_pick(model, cursor, saturation, luminosity).luminosity == luminosity,
        with_pick(model, cursor, saturation, luminosity).hue == model.hue,
{
}

/// Setting a channel twice to the same value is setting it once.
pub proof fn lemma_with_channel_idempotent<T>(model: HslModel<T>, value: WhichHSL<T>)
    ensures
        with_channel(with_channel(model, value), value) == with_channel(model, value),
{
}

/// Setting two different channels gives the same model in either order.
pub proof fn lemma_with_channel_commutes<T>(model: HslModel<T>, a: WhichHSL<T>, b: WhichHSL<T>)
    requires
        !(a is Hue && b is Hue),
        !(a is Saturation && b is Saturation),
        !(a is Luminosity && b is Luminosity),
    ensures
        with_channel(with_channel(model, a), b) == with_channel(with_channel(model, b), a),
{
}

/// The HSL colour picker.
pub struct HSL<T> {
    hue: T,
    saturation: T,
    luminosity: T,
    cursor: (T, T),
}

impl<T: Copy> View for HSL<T> {
    type V = HslModel<T>;

    closed spec fn view(&self) -> HslModel<T> {
        HslModel {
            hue: self.hue,
            saturation: self.saturation,
            luminosity: self.luminosity,
            cursor: self.cursor,
        }
    }
}

impl<T: Copy> HSL<T> {
    /// A picker showing the given colour, with its cursor at the given position.
    pub fn new(hue: T, saturation: T, luminosity: T, cursor: (T, T)) -> (picker: HSL<T>)
        ensures
            picker@ == (HslModel { hue, saturation, luminosity, cursor }),
    {
        HSL { hue, saturation, luminosity, cursor }
    }

    pub fn hue(&self) -> (hue: T)
        ensures
            hue == self@.hue,
    {
        self.hue
    }

    pub fn saturation(&self) -> (saturation: T)
        ensures
            saturation == self@.saturation,
    {
        self.saturation
    }

    pub fn luminosity(&self) -> (luminosity: T)
        ensures
            luminosity == self@.luminosity,
    {
        self.luminosity
    }

    pub fn cursor(&self) -> (cursor: (T, T))
        ensures
            cursor == self@.cursor,
    {
        self.cursor
    }

    /// The converter with which the colour box is painted: the picker's hue is
    /// fixed, saturation runs along `x` and luminosity along `y`.
    pub fn converter(&self) -> (converter: Converter<T>)
        ensures
            converter == Converter::HslH(self@.hue),
    {
        Converter::HslH(self.hue)
    }

    /// Sets the channel that a poke names; the other channels and the cursor stay.
    pub fn poke(&mut self, value: WhichHSL<T>)
        ensures
            final(self)@ == with_channel(old(self)@, value),
    {
        match value {
            WhichHSL::Hue(v) => self.hue = v,
            WhichHSL::Saturation(v) => self.saturation = v,
            WhichHSL::Luminosity(v) => self.luminosity = v,
        }
    }

    /// Moves the cursor; the colour stays.
    pub fn place_cursor(&mut self, cursor: (T, T))
        ensures
            final(self)@ == (HslModel { cursor, ..old(self)@ }),
    {
        self.cursor = cursor;
    }

    /// A mouse button event with the given click count, at a pointer that stands
    /// for `cursor` and for the ratios `(saturation, luminosity)`.
    ///
    /// A single click picks: the cursor, saturation and luminosity follow the
    /// pointer and the result is `true` (the picker becomes active and announces
    /// the new pair). Any other count picks nothing and the result is `false`
    /// (the picker becomes inactive).
    pub fn press(&mut self, count: u32, cursor: (T, T), saturation: T, luminosity: T) -> (picked:
        bool)
        ensures
            picked == (count == 1),
            picked ==> final(self)@ == with_pick(old(self)@, cursor, saturation, luminosity),
            !picked ==> final(self)@ == old(self)@,
    {
        if count == 1 {
            self.cursor = cursor;
            self.saturation = saturation;
            self.luminosity = luminosity;
            true
        } else {
            false
        }
    }

    /// A pointer move while the picker is `active` or not. While active, the
    /// cursor, saturation and luminosity follow the pointer and the result is
    /// `true` (the new pair is announced); otherwise nothing changes.
    pub fn drag(&mut self, active: bool, cursor: (T, T), saturation: T, luminosity: T) -> (picked:
        bool)
        ensures
            picked == active,
            picked ==> final(self)@ == with_pick(old(self)@, cursor, saturation, luminosity),
            !picked ==> final(self)@ == old(self)@,
    {
        if active {
            self.cursor = cursor;
            self.saturation = saturation;
            self.luminosity = luminosity;
        }
        active
    }
}

/// Picking twice at the same pointer gives what picking once gives, and a pick
/// keeps the hue.
pub proof fn lemma_pick_idempotent<T>(model: HslModel<T>, cursor: (T, T), saturation: T, luminosity: T)
    ensures
        with_pick(with_pick(model, cursor, saturation, luminosity), cursor, saturation, luminosity)
            == with_pick(model, cursor, saturation, luminosity),
        with_pick(model, cursor, saturation, luminosity).hue == model.hue,
{
}

} // verus!
