use super::canvas::DrawCommand;
use super::component::dynamic_height;
use super::component::dynamic_width;
use super::component::paint;
use super::component::ComponentName;
use super::component::ComponentView;
use super::component::Measured;
use super::component::RenderParams;
use super::component::Scene;
use super::component::StyleMap;
use super::component::content_origin;
use super::component::draw_children;
use super::component::draw_component;
use super::component::lemma_draw_children_fails_on;
use super::component::max_height;
use super::component::max_width;
use super::component::measure;
use super::component::measure_children;
use super::component::place;
use super::component::sum_heights;
use super::component::sum_widths;
use super::render_error::GeometryError;
use super::style::ComponentAlign;
use super::style::ComponentStyle;
use super::style::RawComponentStyle;
use crate::components::background::background_view;
use crate::components::background::Background;
use crate::components::container::container_view;
use crate::components::container::render;
use crate::components::interface::canvas::raster_size;
use crate::components::interface::component::BackgroundPaint;
use crate::edges::edge::Edge;
use crate::edges::margin::Margin;
use crate::edges::padding::Padding;
use vstd::prelude::*;

verus! {

/// Every style that is remembered covers its own padding and margin.
pub open spec fn cache_covers_edges(cache: StyleMap) -> bool {
    forall|name: ComponentName| #[trigger]
        cache.contains_key(name) ==> cache[name].covers_edges()
}

/// Every one of the given styles covers its own padding and margin.
pub open spec fn all_cover_edges(styles: Seq<ComponentStyle>) -> bool {
    forall|i: int| 0 <= i < styles.len() ==> (#[trigger] styles[i]).covers_edges()
}

/// A resolved width is never less than the padding and margin left and
/// right of the component, and a resolved height never less than those
/// above and below it; and so it is of every style that measuring the
/// component leaves in the cache, provided it was so of the cache before.
pub proof fn lemma_resolved_style_covers_edges(
    component: ComponentView,
    parent_style: Option<ComponentStyle>,
    cache: StyleMap,
)
    requires
        cache_covers_edges(cache),
        measure(component, parent_style, cache) is Ok,
    ensures
        measure(component, parent_style, cache).unwrap().style.covers_edges(),
        cache_covers_edges(measure(component, parent_style, cache).unwrap().cache),
    decreases component, 1nat,
{
    if component.is_remembered(cache) {
    } else if !component.render_condition {
    } else {
        lemma_children_styles_cover_edges(component.children, cache);
    }
}

/// Measuring the children of a component gives styles that cover their own
/// padding and margin, and leaves only such styles in the cache.
pub proof fn lemma_children_styles_cover_edges(children: Seq<ComponentView>, cache: StyleMap)
    requires
        cache_covers_edges(cache),
        measure_children(children, cache) is Ok,
    ensures
        all_cover_edges(measure_children(children, cache).unwrap().styles),
        cache_covers_edges(measure_children(children, cache).unwrap().cache),
    decreases children, 0nat,
{
    if children.len() > 0 {
        lemma_children_styles_cover_edges(children.drop_last(), cache);
        let before = measure_children(children.drop_last(), cache).unwrap();
        lemma_resolved_style_covers_edges(children.last(), None, before.cache);
    }
}

/// The same of the second pass: what drawing a component leaves in the
/// cache covers its own padding and margin.
pub proof fn lemma_drawn_cache_covers_edges(
    component: ComponentView,
    scene: Scene,
    sibling_render_params: RenderParams,
    parent_style: ComponentStyle,
    sibling_style: ComponentStyle,
    cache: StyleMap,
)
    requires
        cache_covers_edges(cache),
        draw_component(
            component,
            scene,
            sibling_render_params,
            parent_style,
            sibling_style,
            cache,
        ) is Ok,
    ensures
        cache_covers_edges(
            draw_component(
                component,
                scene,
                sibling_render_params,
                parent_style,
                sibling_style,
                cache,
            ).unwrap().cache,
        ),
    decreases component, 1nat,
{
    lemma_resolved_style_covers_edges(component, Some(parent_style), cache);
    if component.render_condition {
        let measured = measure(component, Some(parent_style), cache).unwrap();
        let render_params = place(
            parent_style.align,
            sibling_render_params,
            sibling_style,
            measured.style,
        ).unwrap();
        let origin = content_origin(render_params, measured.style).unwrap();
        lemma_drawn_children_cache_covers_edges(
            component.children,
            scene,
            origin,
            measured.style,
            measured.cache,
        );
    }
}

/// The same of the children of a component that is drawn.
pub proof fn lemma_drawn_children_cache_covers_edges(
    children: Seq<ComponentView>,
    scene: Scene,
    origin: RenderParams,
    parent_style: ComponentStyle,
    cache: StyleMap,
)
    requires
        cache_covers_edges(cache),
        draw_children(children, scene, origin, parent_style, cache) is Ok,
    ensures
        cache_covers_edges(
            draw_children(children, scene, origin, parent_style, cache).unwrap().cache,
        ),
        draw_children(
            children,
            scene,
            origin,
            parent_style,
            cache,
        ).unwrap().sibling_style.covers_edges(),
    decreases children, 0nat,
{
    if children.len() > 0 {
        lemma_drawn_children_cache_covers_edges(
            children.drop_last(),
            scene,
            origin,
            parent_style,
            cache,
        );
        let before = draw_children(children.drop_last(), scene, origin, parent_style, cache).unwrap();
        lemma_drawn_cache_covers_edges(
            children.last(),
            scene,
            before.cursor,
            parent_style,
            before.sibling_style,
            before.cache,
        );
        let drawn = draw_component(
            children.last(),
            scene,
            before.cursor,
            parent_style,
            before.sibling_style,
            before.cache,
        ).unwrap();
        lemma_resolved_style_covers_edges(children.last(), Some(parent_style), drawn.cache);
    }
}

/// A component that is not there, and whose style is not taken from the
/// cache, is resolved to the style of no size, and measuring it leaves the
/// cache as it was: nothing below it is measured.
pub proof fn lemma_absent_component_takes_no_space(
    component: ComponentView,
    parent_style: Option<ComponentStyle>,
    cache: StyleMap,
)
    requires
        !component.render_condition,
        !component.is_remembered(cache),
    ensures
        measure(component, parent_style, cache) == Ok::<Measured, GeometryError>(
            Measured { style: ComponentStyle::zero(), cache },
        ),
{
}

/// A component that is not there paints nothing, and neither does
/// anything below it: drawing it issues no command at all.
pub proof fn lemma_absent_component_paints_nothing(
    component: ComponentView,
    scene: Scene,
    sibling_render_params: RenderParams,
    parent_style: ComponentStyle,
    sibling_style: ComponentStyle,
    cache: StyleMap,
)
    requires
        !component.render_condition,
        draw_component(
            component,
            scene,
            sibling_render_params,
            parent_style,
            sibling_style,
            cache,
        ) is Ok,
    ensures
        draw_component(
            component,
            scene,
            sibling_render_params,
            parent_style,
            sibling_style,
            cache,
        ).unwrap().commands == Seq::<DrawCommand>::empty(),
        !component.is_remembered(cache) ==> draw_component(
            component,
            scene,
            sibling_render_params,
            parent_style,
            sibling_style,
            cache,
        ).unwrap().cache == cache,
{
}

/// The styles of those of the given components that are there.
pub open spec fn visible_styles(children: Seq<ComponentView>, styles: Seq<ComponentStyle>) -> Seq<
    ComponentStyle,
>
    recommends
        children.len() == styles.len(),
    decreases styles.len(),
{
    if styles.len() == 0 || children.len() == 0 {
        Seq::empty()
    } else if children.last().render_condition {
        visible_styles(children.drop_last(), styles.drop_last()).push(styles.last())
    } else {
        visible_styles(children.drop_last(), styles.drop_last())
    }
}

/// No child that is not there has its style taken from the cache while the
/// given children are measured from first to last.
pub open spec fn no_absent_child_remembered(children: Seq<ComponentView>, cache: StyleMap) -> bool {
    forall|i: int|
        0 <= i < children.len() && !(#[trigger] children[i]).render_condition
            ==> !children[i].is_remembered(measure_children(children.take(i), cache).unwrap().cache)
}

/// Measuring children gives one style for each child.
pub proof fn lemma_one_style_per_child(children: Seq<ComponentView>, cache: StyleMap)
    requires
        measure_children(children, cache) is Ok,
    ensures
        measure_children(children, cache).unwrap().styles.len() == children.len(),
    decreases children.len(),
{
    if children.len() > 0 {
        lemma_one_style_per_child(children.drop_last(), cache);
    }
}

/// The children that are not there add nothing to what the children need:
/// the sums and the largest values over all children are those over the
/// children that are there.
pub proof fn lemma_absent_children_add_nothing(children: Seq<ComponentView>, cache: StyleMap)
    requires
        measure_children(children, cache) is Ok,
        no_absent_child_remembered(children, cache),
    ensures
        ({
            let styles = measure_children(children, cache).unwrap().styles;
            let visible = visible_styles(children, styles);
            &&& sum_widths(styles) == sum_widths(visible)
            &&& sum_heights(styles) == sum_heights(visible)
            &&& max_width(styles) == max_width(visible)
            &&& max_height(styles) == max_height(visible)
        }),
    decreases children.len(),
{
    lemma_one_style_per_child(children, cache);
    if children.len() > 0 {
        let front = children.drop_last();
        let last_index = children.len() - 1;
        assert(front =~= children.take(last_index));
        assert forall|i: int| 0 <= i < front.len() && !(#[trigger] front[i]).render_condition implies !front[i].is_remembered(
            measure_children(front.take(i), cache).unwrap().cache,
        ) by {
            assert(front[i] == children[i]);
            assert(front.take(i) =~= children.take(i));
        }
        lemma_absent_children_add_nothing(front, cache);
        lemma_one_style_per_child(front, cache);
        let before = measure_children(front, cache).unwrap();
        let styles = measure_children(children, cache).unwrap().styles;
        let last_style = measure(children.last(), None, before.cache).unwrap().style;
        assert(styles == before.styles.push(last_style));
        assert(styles.drop_last() =~= before.styles);
        assert(styles.last() == last_style);
        let visible_before = visible_styles(front, before.styles);
        if children.last().render_condition {
            let visible = visible_before.push(last_style);
            assert(visible.drop_last() =~= visible_before);
            assert(visible.last() == last_style);
        } else {
            assert(children[last_index] == children.last());
            lemma_absent_component_takes_no_space(children.last(), None, before.cache);
            assert(last_style == ComponentStyle::zero());
        }
    }
}

/// A component lays out its children and no more: it is there, has no
/// name, and declares the direction of its children and nothing else.
pub open spec fn is_plain_container(component: ComponentView, align: ComponentAlign) -> bool {
    &&& component.name == ComponentName::Stub
    &&& component.render_condition
    &&& component.declared_style() == (RawComponentStyle {
        align,
        ..RawComponentStyle::spec_default()
    })
}

/// A row is as wide as its children together and as high as the highest of
/// them.
pub proof fn lemma_row_size(
    component: ComponentView,
    parent_style: Option<ComponentStyle>,
    cache: StyleMap,
)
    requires
        is_plain_container(component, ComponentAlign::Row),
        measure(component, parent_style, cache) is Ok,
    ensures
        measure_children(component.children, cache) is Ok,
        ({
            let style = measure(component, parent_style, cache).unwrap().style;
            let styles = measure_children(component.children, cache).unwrap().styles;
            &&& style.width == sum_widths(styles)
            &&& style.height == max_height(styles)
            &&& no_absent_child_remembered(component.children, cache) ==> {
                &&& style.width == sum_widths(visible_styles(component.children, styles))
                &&& style.height == max_height(visible_styles(component.children, styles))
            }
        }),
{
    if no_absent_child_remembered(component.children, cache) {
        lemma_absent_children_add_nothing(component.children, cache);
    }
}

/// A column is as wide as the widest of its children and as high as its
/// children together.
pub proof fn lemma_column_size(
    component: ComponentView,
    parent_style: Option<ComponentStyle>,
    cache: StyleMap,
)
    requires
        is_plain_container(component, ComponentAlign::Column),
        measure(component, parent_style, cache) is Ok,
    ensures
        measure_children(component.children, cache) is Ok,
        ({
            let style = measure(component, parent_style, cache).unwrap().style;
            let styles = measure_children(component.children, cache).unwrap().styles;
            &&& style.width == max_width(styles)
            &&& style.height == sum_heights(styles)
            &&& no_absent_child_remembered(component.children, cache) ==> {
                &&& style.width == max_width(visible_styles(component.children, styles))
                &&& style.height == sum_heights(visible_styles(component.children, styles))
            }
        }),
{
    if no_absent_child_remembered(component.children, cache) {
        lemma_absent_children_add_nothing(component.children, cache);
    }
}

/// No style is ever remembered for a component without a name: a cache
/// that holds none before a component is measured holds none after.
pub proof fn lemma_stub_is_never_remembered(
    component: ComponentView,
    parent_style: Option<ComponentStyle>,
    cache: StyleMap,
)
    requires
        !cache.contains_key(ComponentName::Stub),
        measure(component, parent_style, cache) is Ok,
    ensures
        !measure(component, parent_style, cache).unwrap().cache.contains_key(ComponentName::Stub),
    decreases component, 1nat,
{
    if component.is_remembered(cache) {
    } else if !component.render_condition {
    } else {
        lemma_stub_is_never_remembered_for_children(component.children, cache);
    }
}

/// The same of the children of a component.
pub proof fn lemma_stub_is_never_remembered_for_children(
    children: Seq<ComponentView>,
    cache: StyleMap,
)
    requires
        !cache.contains_key(ComponentName::Stub),
        measure_children(children, cache) is Ok,
    ensures
        !measure_children(children, cache).unwrap().cache.contains_key(ComponentName::Stub),
    decreases children, 0nat,
{
    if children.len() > 0 {
        lemma_stub_is_never_remembered_for_children(children.drop_last(), cache);
        let before = measure_children(children.drop_last(), cache).unwrap();
        lemma_stub_is_never_remembered(children.last(), None, before.cache);
    }
}

/// A component that is there but does not draw itself only passes its
/// children through: it paints nothing of its own, and its children are
/// drawn from the place on where it would have been drawn itself. Where its
/// style is worked out, it has no padding and no margin; where its style is
/// remembered, the remembered style must have no padding left and above.
pub proof fn lemma_silent_component_passes_children_through(
    component: ComponentView,
    scene: Scene,
    sibling_render_params: RenderParams,
    parent_style: ComponentStyle,
    sibling_style: ComponentStyle,
    cache: StyleMap,
)
    requires
        component.render_condition,
        !component.self_render_condition,
        component.is_remembered(cache) ==> cache[component.name].padding.left == 0
            && cache[component.name].padding.top == 0,
        draw_component(
            component,
            scene,
            sibling_render_params,
            parent_style,
            sibling_style,
            cache,
        ) is Ok,
    ensures
        ({
            let measured = measure(component, Some(parent_style), cache).unwrap();
            let drawn = draw_component(
                component,
                scene,
                sibling_render_params,
                parent_style,
                sibling_style,
                cache,
            ).unwrap();
            let children = draw_children(
                component.children,
                scene,
                drawn.render_params,
                measured.style,
                measured.cache,
            );
            &&& !component.is_remembered(cache) ==> {
                &&& measured.style.padding.spec_horizontal() == 0
                &&& measured.style.padding.spec_vertical() == 0
                &&& measured.style.margin.spec_horizontal() == 0
                &&& measured.style.margin.spec_vertical() == 0
            }
            &&& children is Ok
            &&& drawn.commands == children.unwrap().commands
        }),
{
    let measured = measure(component, Some(parent_style), cache).unwrap();
    let drawn = draw_component(
        component,
        scene,
        sibling_render_params,
        parent_style,
        sibling_style,
        cache,
    ).unwrap();
    let children = draw_children(
        component.children,
        scene,
        drawn.render_params,
        measured.style,
        measured.cache,
    );
    assert(content_origin(drawn.render_params, measured.style) == Ok::<
        RenderParams,
        GeometryError,
    >(drawn.render_params));
    assert(Seq::<DrawCommand>::empty() + children.unwrap().commands
        =~= children.unwrap().commands);
}

/// The first pass leaves a component that is there but does not draw
/// itself remembered under its name with a style without padding and
/// margin, where it has a name and no style was remembered under it before.
pub proof fn lemma_silent_component_is_remembered_without_edges(
    component: ComponentView,
    parent_style: Option<ComponentStyle>,
    cache: StyleMap,
)
    requires
        component.render_condition,
        !component.self_render_condition,
        component.name != ComponentName::Stub,
        !cache.contains_key(component.name),
        measure(component, parent_style, cache) is Ok,
    ensures
        ({
            let measured = measure(component, parent_style, cache).unwrap();
            &&& measured.cache.contains_key(component.name)
            &&& measured.cache[component.name] == measured.style
            &&& measured.style.padding == Padding::zero()
            &&& measured.style.margin == Margin::zero()
        }),
{
}

/// Children are painted in their order: what the first `count` children
/// paint comes first among what all children paint, so that a later child is
/// painted over an earlier one.
pub proof fn lemma_children_are_painted_in_order(
    children: Seq<ComponentView>,
    count: int,
    scene: Scene,
    origin: RenderParams,
    parent_style: ComponentStyle,
    cache: StyleMap,
)
    requires
        0 <= count <= children.len(),
        draw_children(children, scene, origin, parent_style, cache) is Ok,
    ensures
        draw_children(children.take(count), scene, origin, parent_style, cache) is Ok,
        draw_children(
            children.take(count),
            scene,
            origin,
            parent_style,
            cache,
        ).unwrap().commands.is_prefix_of(
            draw_children(children, scene, origin, parent_style, cache).unwrap().commands,
        ),
    decreases children.len() - count,
{
    let all = draw_children(children, scene, origin, parent_style, cache).unwrap().commands;
    if draw_children(children.take(count), scene, origin, parent_style, cache) is Err {
        lemma_draw_children_fails_on(children, count, scene, origin, parent_style, cache);
    }
    if count == children.len() {
        assert(children.take(count) =~= children);
    } else {
        lemma_children_are_painted_in_order(
            children,
            count + 1,
            scene,
            origin,
            parent_style,
            cache,
        );
        assert(children.take(count + 1).drop_last() =~= children.take(count));
        let shorter = draw_children(
            children.take(count),
            scene,
            origin,
            parent_style,
            cache,
        ).unwrap().commands;
        let longer = draw_children(
            children.take(count + 1),
            scene,
            origin,
            parent_style,
            cache,
        ).unwrap().commands;
        assert(shorter.is_prefix_of(longer));
        assert(shorter.is_prefix_of(all)) by {
            assert(shorter =~= all.subrange(0, shorter.len() as int));
        }
    }
}

/// In a render of its own, a background without padding is not painted,
/// and what it holds is drawn from the upper left corner of the canvas,
/// where the background itself is placed: the commands of the render are
/// the commands of its children, drawn from there with the style the
/// background was resolved to.
pub proof fn lemma_background_without_padding_is_not_painted(
    padding: Padding,
    children: Seq<ComponentView>,
    scale_factor: u8,
    background: BackgroundPaint,
    background_padding: Padding,
)
    requires
        !Background::spec_has_background(&padding),
        render(
            container_view(seq![background_view(padding, children)]),
            scale_factor,
            background,
            background_padding,
            StyleMap::empty(),
        ) is Ok,
    ensures
        ({
            let rendered = render(
                container_view(seq![background_view(padding, children)]),
                scale_factor,
                background,
                background_padding,
                StyleMap::empty(),
            ).unwrap();
            let first = measure(background_view(padding, children), None, StyleMap::empty());
            let scene = Scene {
                background,
                background_padding,
                canvas_width: rendered.width,
                canvas_height: rendered.height,
            };
            &&& first is Ok
            &&& first.unwrap().style.padding == Padding::zero()
            &&& draw_children(
                children,
                scene,
                RenderParams { x: 0, y: 0 },
                first.unwrap().style,
                first.unwrap().cache,
            ) is Ok
            &&& rendered.commands == draw_children(
                children,
                scene,
                RenderParams { x: 0, y: 0 },
                first.unwrap().style,
                first.unwrap().cache,
            ).unwrap().commands
        }),
{
    let empty = StyleMap::empty();
    let held = background_view(padding, children);
    let root = container_view(seq![held]);
    let zero = ComponentStyle::zero();
    let corner = RenderParams { x: 0, y: 0 };
    assert(root.children =~= seq![held]);
    assert(seq![held].drop_last() =~= Seq::<ComponentView>::empty());
    reveal_with_fuel(measure_children, 2);
    reveal_with_fuel(draw_children, 2);
    reveal_with_fuel(sum_widths, 2);
    reveal_with_fuel(max_height, 2);
    // The first pass: the background is resolved without padding or margin
    // and remembered; the root is as large as the background.
    assert(!held.is_remembered(empty));
    let first = measure(held, None, empty).unwrap();
    assert(first.style.padding == Padding::zero());
    assert(first.cache.contains_key(ComponentName::Background));
    assert(first.cache[ComponentName::Background] == first.style);
    let styles = seq![first.style];
    assert(styles.drop_last() =~= Seq::<ComponentStyle>::empty());
    assert(measure_children(seq![held], empty).unwrap().styles =~= styles);
    let measured_root = measure(root, None, empty).unwrap();
    assert(measured_root.cache == first.cache);
    let size = raster_size(measured_root.style.width, measured_root.style.height, scale_factor).unwrap();
    let scene = Scene {
        background,
        background_padding,
        canvas_width: size.0,
        canvas_height: size.1,
    };
    // The second pass: the style of the background is the remembered one.
    assert(held.is_remembered(first.cache));
    assert(measure(held, None, first.cache) == Ok::<Measured, GeometryError>(
        Measured { style: first.style, cache: first.cache },
    ));
    assert(measure_children(seq![held], first.cache).unwrap().styles =~= styles);
    let again = measure(root, Some(zero), first.cache).unwrap();
    assert(again.cache == first.cache);
    assert(place(zero.align, corner, zero, again.style) == Ok::<RenderParams, GeometryError>(
        corner,
    ));
    assert(content_origin(corner, again.style) == Ok::<RenderParams, GeometryError>(corner));
    assert(measure(held, Some(again.style), first.cache) == Ok::<Measured, GeometryError>(
        Measured { style: first.style, cache: first.cache },
    ));
    assert(place(again.style.align, corner, zero, first.style) == Ok::<
        RenderParams,
        GeometryError,
    >(corner));
    assert(content_origin(corner, first.style) == Ok::<RenderParams, GeometryError>(corner));
    let below = draw_children(children, scene, corner, first.style, first.cache);
    let drawn_held = draw_component(held, scene, corner, again.style, zero, first.cache);
    assert(drawn_held is Ok ==> below is Ok && drawn_held.unwrap().commands
        =~= below.unwrap().commands);
    let drawn_root = draw_component(root, scene, corner, zero, zero, first.cache);
    assert(drawn_root is Ok);
    let nothing = draw_children(
        Seq::<ComponentView>::empty(),
        scene,
        corner,
        again.style,
        first.cache,
    ).unwrap();
    assert(nothing.cursor == corner && nothing.sibling_style == zero && nothing.cache
        == first.cache && nothing.commands =~= Seq::<DrawCommand>::empty());
    let held_alone = draw_children(seq![held], scene, corner, again.style, first.cache);
    assert(paint(root.painter, scene, corner, again.style, zero) == Ok::<
        Seq<DrawCommand>,
        GeometryError,
    >(Seq::empty()));
    assert(held_alone is Ok);
    assert(drawn_held is Ok);
    assert(held_alone.unwrap().commands =~= drawn_held.unwrap().commands);
    assert(drawn_root.unwrap().commands =~= held_alone.unwrap().commands);
}

} // verus!
