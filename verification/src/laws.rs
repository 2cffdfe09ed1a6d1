//! What holds of conversion and compositing, whatever the pixel.
use crate::chan::{
    add_of, complement_of, gamma_to_linear, kept_at_full, lemma_modes,
    lemma_premultiplied_round_trip, lemma_widen_narrow, max_of, min_of, mul_of, Alpha, Ch16, Ch8,
    Channel, ChannelLaws, FromChannel, Gamma, Linear, Premultiplied, Srgb, Straight,
};
use crate::el::{
    composite_channels_matte_spec, composite_channels_spec, convert_alpha_gamma_spec,
    convert_spec, rescaled, Pixel,
};
use crate::model::{lemma_models, nth_or_max, ColorModel, Gray, Rgb};
use crate::ops::{PorterDuff, SrcOver};
use crate::srgb;
use vstd::prelude::*;

verus! {

/// Converting a pixel to its own format leaves its channels as they are.
pub proof fn lemma_convert_same_format<P: Pixel>(p: P)
    ensures
        convert_spec::<P, P>(p@) == p@,
{
    p.lemma_view();
    assert(convert_spec::<P, P>(p@) =~= p@);
}

/// Converting a pixel of eight-bit channels to sixteen bits and back, with the
/// color model, the number of channels and the alpha and gamma modes kept,
/// gives the same channels.
pub proof fn lemma_convert_wider_and_back<M, A, G, N, W>(p: N) where
    M: ColorModel,
    A: Alpha,
    G: Gamma,
    N: Pixel<Chan = Ch8, Model = M, Alpha = A, Gamma = G>,
    W: Pixel<Chan = Ch16, Model = M, Alpha = A, Gamma = G>,

    requires
        N::arity() == W::arity(),
    ensures
        convert_spec::<N, W>(convert_spec::<W, N>(p@)) == p@,
{
    p.lemma_view();
    let wide = convert_spec::<W, N>(p@);
    let back = convert_spec::<N, W>(wide);
    assert forall|i: int| 0 <= i < p@.len() implies back[i] == p@[i] by {
        lemma_widen_narrow(p@[i]);
    }
    assert(back =~= p@);
}

/// Converting a pixel of eight-bit channels from linear gamma to sRGB and back,
/// with the color model, the number of channels and the alpha mode kept,
/// gives each channel back to within one level.
pub proof fn lemma_convert_srgb_and_back<M, A, L, E>(p: L, i: int) where
    M: ColorModel,
    A: Alpha,
    L: Pixel<Chan = Ch8, Model = M, Alpha = A, Gamma = Linear>,
    E: Pixel<Chan = Ch8, Model = M, Alpha = A, Gamma = Srgb>,

    requires
        L::arity() == E::arity(),
        0 <= i < L::arity(),
    ensures
        ({
            let back = convert_spec::<L, E>(convert_spec::<E, L>(p@));
            back[i].level() <= p@[i].level() + 1 && p@[i].level() <= back[i].level() + 1
        }),
{
    p.lemma_view();
    p@[i].lemma_level();
    lemma_modes();
    let level = p@[i].level();
    srgb::lemma_encode_decode(level);
    let encoded = srgb::encode_level(level);
    let decoded = srgb::decode_level(encoded);
    Ch8::lemma_from_level(encoded);
    Ch8::lemma_from_level(decoded);
    let there = convert_spec::<E, L>(p@);
    let back = convert_spec::<L, E>(there);
    if M::LINEAR_START <= i < M::LINEAR_END {
        assert(there[i] == Ch8::from_level(encoded));
        assert(back[i] == Ch8::from_level(decoded));
    } else {
        assert(there[i] == p@[i]);
        assert(back[i] == p@[i]);
    }
}

/// A gray pixel converts to a pixel of red, green and blue in the same alpha
/// and gamma modes by giving its value, at the new bit depth, to each of the
/// three colors, and its alpha to the alpha channel.
pub proof fn lemma_convert_gray_to_rgb<A, G, D, S>(p: S) where
    A: Alpha,
    G: Gamma,
    S: Pixel<Model = Gray, Alpha = A, Gamma = G>,
    D: Pixel<Model = Rgb, Alpha = A, Gamma = G>,
    D::Chan: FromChannel<S::Chan>,

    ensures
        convert_spec::<D, S>(p@) == seq![
            D::Chan::from_channel_spec(nth_or_max(p@, 0)),
            D::Chan::from_channel_spec(nth_or_max(p@, 0)),
            D::Chan::from_channel_spec(nth_or_max(p@, 0)),
            D::Chan::from_channel_spec(nth_or_max(p@, 1)),
        ].take(D::arity() as int),
{
    D::lemma_arity();
    lemma_models();
    let value = D::Chan::from_channel_spec(nth_or_max(p@, 0));
    let alpha = D::Chan::from_channel_spec(nth_or_max(p@, 1));
    assert(convert_spec::<D, S>(p@) =~= seq![value, value, value, alpha].take(D::arity() as int));
}

/// A conversion within one color model leaves alpha untouched: it is only
/// brought to the new bit depth.
pub proof fn lemma_convert_keeps_alpha<D: Pixel, S: Pixel>(p: S) where
    D::Chan: FromChannel<S::Chan>,

    requires
        S::Model::KIND == D::Model::KIND,
        D::Model::ALPHA < D::arity(),
    ensures
        convert_spec::<D, S>(p@)[D::Model::ALPHA as int] == D::Chan::from_channel_spec(
            nth_or_max(p@, D::Model::ALPHA as int),
        ),
{
    D::Model::lemma_layout();
}

/// A conversion within one color model touches the color channels alone: any
/// other channel, such as alpha, is only brought to the new bit depth.
pub proof fn lemma_convert_keeps_other_channels<D: Pixel, S: Pixel>(p: S, i: int) where
    D::Chan: FromChannel<S::Chan>,

    requires
        S::Model::KIND == D::Model::KIND,
        0 <= i < D::arity(),
        !(D::Model::LINEAR_START <= i < D::Model::LINEAR_END),
    ensures
        convert_spec::<D, S>(p@)[i] == D::Chan::from_channel_spec(nth_or_max(p@, i)),
{
}

/// A pixel converted from straight alpha to premultiplied alpha in linear
/// gamma has no color channel above its alpha.
pub proof fn lemma_premultiplied_within_alpha<M, G, D, S>(p: S, i: int) where
    M: ColorModel,
    G: Gamma,
    S: Pixel<Model = M, Alpha = Straight, Gamma = G>,
    D: Pixel<Model = M, Alpha = Premultiplied, Gamma = Linear>,
    D::Chan: FromChannel<S::Chan> + ChannelLaws,

    requires
        M::LINEAR_START <= i < M::LINEAR_END,
        i < D::arity(),
    ensures
        convert_spec::<D, S>(p@)[i].level() <= nth_or_max(
            convert_spec::<D, S>(p@),
            M::ALPHA as int,
        ).level(),
{
    lemma_modes();
    M::lemma_layout();
    let at_depth = rescaled::<S::Chan, D::Chan>(p@, D::arity());
    let alpha = nth_or_max(at_depth, M::ALPHA as int);
    let linear = gamma_to_linear(G::MODE, at_depth[i]);
    let converted = convert_spec::<D, S>(p@);
    assert(converted[i] == mul_of(linear, alpha));
    assert(nth_or_max(converted, M::ALPHA as int) == alpha);
    linear.lemma_level();
    alpha.lemma_level();
    <D::Chan as ChannelLaws>::lemma_mul_div(linear.level(), alpha.level());
    <D::Chan as ChannelLaws>::lemma_from_level(
        <D::Chan as Channel>::mul_level(linear.level(), alpha.level()),
    );
}

/// Taking the channels of a pixel of full alpha from straight to premultiplied
/// alpha and back, in linear gamma, gives each color channel back, or the
/// level below it, and leaves every other channel as it is.
pub proof fn lemma_alpha_pass_and_back<C, M, S, P>(channels: Seq<C>, i: int) where
    C: ChannelLaws,
    M: ColorModel,
    S: Pixel<Chan = C, Model = M, Alpha = Straight, Gamma = Linear>,
    P: Pixel<Chan = C, Model = M, Alpha = Premultiplied, Gamma = Linear>,

    requires
        0 <= i < channels.len(),
    ensures
        ({
            let encoded = convert_alpha_gamma_spec::<P, S>(channels, max_of::<C>());
            let decoded = convert_alpha_gamma_spec::<S, P>(encoded, max_of::<C>());
            if M::LINEAR_START <= i < M::LINEAR_END {
                decoded[i].level() <= channels[i].level() <= decoded[i].level() + 1
            } else {
                decoded[i] == channels[i]
            }
        }),
{
    lemma_modes();
    lemma_premultiplied_round_trip(channels[i]);
}

/// Converting a pixel of full alpha from straight to premultiplied alpha and
/// back, in linear gamma and with everything else kept, gives each color
/// channel back, or the level below it, and every other channel as it was.
pub proof fn lemma_convert_premultiplied_and_back<C, M, S, P>(p: S, i: int) where
    C: ChannelLaws,
    M: ColorModel,
    S: Pixel<Chan = C, Model = M, Alpha = Straight, Gamma = Linear>,
    P: Pixel<Chan = C, Model = M, Alpha = Premultiplied, Gamma = Linear>,

    requires
        S::arity() == P::arity(),
        0 <= i < S::arity(),
        nth_or_max(p@, M::ALPHA as int) == max_of::<C>(),
    ensures
        ({
            let back = convert_spec::<S, P>(convert_spec::<P, S>(p@));
            if M::LINEAR_START <= i < M::LINEAR_END {
                back[i].level() <= p@[i].level() <= back[i].level() + 1
            } else {
                back[i] == p@[i]
            }
        }),
{
    lemma_modes();
    M::lemma_layout();
    p.lemma_view();
    let full = max_of::<C>();
    assert(rescaled::<C, C>(p@, P::arity()) =~= p@);
    let there = convert_alpha_gamma_spec::<P, S>(p@, full);
    assert(convert_spec::<P, S>(p@) == there);
    assert(nth_or_max(there, M::ALPHA as int) == full);
    assert(rescaled::<C, C>(there, S::arity()) =~= there);
    assert(convert_spec::<S, P>(there) == convert_alpha_gamma_spec::<S, P>(there, full));
    lemma_alpha_pass_and_back::<C, M, S, P>(p@, i);
}

/// Whether channel `i` takes part in compositing: it is a color channel or
/// the alpha channel.
pub open spec fn is_composited(i: int, start: int, end: int, alpha: int) -> bool {
    start <= i < end || i == alpha
}

/// Compositing blends each channel once: where alpha is no color channel, as
/// it is in every color model, the new alpha is the blend of the two alphas.
pub proof fn lemma_composite_alpha<C: Channel, O: PorterDuff<C>>(
    dst: Seq<C>,
    src: Seq<C>,
    start: int,
    end: int,
    alpha: int,
)
    requires
        0 <= alpha < dst.len(),
        !(start <= alpha < end),
    ensures
        composite_channels_spec::<C, O>(dst, src, start, end, alpha)[alpha] == O::composite_spec(
            dst[alpha],
            complement_of(dst[alpha]),
            nth_or_max(src, alpha),
            complement_of(nth_or_max(src, alpha)),
        ),
{
}

/// The complement of the maximum is the minimum, and of the minimum the
/// maximum; a product with the minimum is the minimum; a sum with the minimum
/// changes nothing.
pub proof fn lemma_min_max<C: ChannelLaws>(c: C)
    ensures
        complement_of(max_of::<C>()) == min_of::<C>(),
        complement_of(min_of::<C>()) == max_of::<C>(),
        mul_of(c, min_of::<C>()) == min_of::<C>(),
        mul_of(min_of::<C>(), c) == min_of::<C>(),
        mul_of(max_of::<C>(), max_of::<C>()) == max_of::<C>(),
        add_of(c, min_of::<C>()) == c,
        add_of(min_of::<C>(), c) == c,
{
    c.lemma_level();
    C::lemma_from_level(0);
    C::lemma_from_level(C::max_level());
    C::lemma_mul_div(c.level(), 0);
    C::lemma_mul_div(0, c.level());
    C::lemma_mul_div(C::max_level(), C::max_level());
}

/// Over an opaque source nothing of the destination is left: each channel
/// that takes part in compositing becomes that of the source.  Where every
/// channel takes part, the result is the source.
pub proof fn lemma_over_opaque_source<C: ChannelLaws>(
    dst: Seq<C>,
    src: Seq<C>,
    start: int,
    end: int,
    alpha: int,
)
    requires
        dst.len() == src.len(),
        0 <= alpha < dst.len(),
        src[alpha] == max_of::<C>(),
    ensures
        forall|i: int|
            0 <= i < dst.len() ==> (#[trigger] composite_channels_spec::<C, SrcOver>(
                dst,
                src,
                start,
                end,
                alpha,
            )[i]) == (if is_composited(i, start, end, alpha) {
                src[i]
            } else {
                dst[i]
            }),
        (forall|i: int| 0 <= i < dst.len() ==> is_composited(i, start, end, alpha))
            ==> composite_channels_spec::<C, SrcOver>(dst, src, start, end, alpha) == src,
{
    let r = composite_channels_spec::<C, SrcOver>(dst, src, start, end, alpha);
    assert forall|i: int| 0 <= i < dst.len() implies (#[trigger] r[i]) == (if is_composited(
        i,
        start,
        end,
        alpha,
    ) {
        src[i]
    } else {
        dst[i]
    }) by {
        lemma_min_max(dst[i]);
        lemma_min_max(src[i]);
    }
    if forall|i: int| 0 <= i < dst.len() ==> is_composited(i, start, end, alpha) {
        assert(r =~= src);
    }
}

/// Under a source that is the minimum in every channel, a destination whose
/// channels survive a product with the maximum stays as it is.
pub proof fn lemma_over_clear_source<C: ChannelLaws>(
    dst: Seq<C>,
    src: Seq<C>,
    start: int,
    end: int,
    alpha: int,
)
    requires
        dst.len() == src.len(),
        0 <= alpha < dst.len(),
        forall|i: int|
            0 <= i < dst.len() && is_composited(i, start, end, alpha) ==> src[i] == min_of::<C>()
                && kept_at_full(dst[i]),
    ensures
        composite_channels_spec::<C, SrcOver>(dst, src, start, end, alpha) == dst,
{
    let r = composite_channels_spec::<C, SrcOver>(dst, src, start, end, alpha);
    assert forall|i: int| 0 <= i < dst.len() implies r[i] == dst[i] by {
        lemma_min_max(dst[i]);
        lemma_min_max(src[i]);
    }
    assert(r =~= dst);
}

/// Through a matte of full coverage, a color whose channels survive a product
/// with the maximum composites as it does without the matte, whatever the
/// operator.
pub proof fn lemma_matte_full<C: ChannelLaws, O: PorterDuff<C>>(
    dst: Seq<C>,
    clr: Seq<C>,
    start: int,
    end: int,
    alpha: int,
)
    requires
        dst.len() == clr.len(),
        0 <= alpha < dst.len(),
        forall|i: int|
            0 <= i < dst.len() && is_composited(i, start, end, alpha) ==> kept_at_full(clr[i]),
    ensures
        composite_channels_matte_spec::<C, O>(dst, max_of::<C>(), clr, start, end, alpha)
            == composite_channels_spec::<C, O>(dst, clr, start, end, alpha),
{
    let m = composite_channels_matte_spec::<C, O>(dst, max_of::<C>(), clr, start, end, alpha);
    let r = composite_channels_spec::<C, O>(dst, clr, start, end, alpha);
    lemma_min_max(clr[alpha]);
    assert(is_composited(alpha, start, end, alpha));
    assert(kept_at_full(clr[alpha]));
    assert forall|i: int| 0 <= i < dst.len() implies m[i] == r[i] by {
        if is_composited(i, start, end, alpha) {
            assert(kept_at_full(clr[i]));
        }
    }
    assert(m =~= r);
}

/// Through a matte of no coverage, a destination whose channels survive a
/// product with the maximum stays as it is under any color laid over it.
pub proof fn lemma_matte_none<C: ChannelLaws>(
    dst: Seq<C>,
    clr: Seq<C>,
    start: int,
    end: int,
    alpha: int,
)
    requires
        dst.len() == clr.len(),
        0 <= alpha < dst.len(),
        forall|i: int|
            0 <= i < dst.len() && is_composited(i, start, end, alpha) ==> kept_at_full(dst[i]),
    ensures
        composite_channels_matte_spec::<C, SrcOver>(dst, min_of::<C>(), clr, start, end, alpha)
            == dst,
{
    let m = composite_channels_matte_spec::<C, SrcOver>(dst, min_of::<C>(), clr, start, end, alpha);
    assert(is_composited(alpha, start, end, alpha));
    assert(kept_at_full(dst[alpha]));
    lemma_min_max(dst[alpha]);
    lemma_min_max(clr[alpha]);
    assert forall|i: int| 0 <= i < dst.len() implies m[i] == dst[i] by {
        lemma_min_max(dst[i]);
        lemma_min_max(clr[i]);
        if is_composited(i, start, end, alpha) {
            assert(kept_at_full(dst[i]));
        }
    }
    assert(m =~= dst);
}

} // verus!
