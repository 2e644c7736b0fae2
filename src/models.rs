//! Snapshots of the catalog as the storefront publishes them, with a
//! mathematical view of each record.

use vstd::prelude::*;

verus! {

/// The view of an optional string.
pub open spec fn opt_str_view(o: Option<String>) -> Option<Seq<char>> {
    match o {
        Some(s) => Some(s@),
        None => None,
    }
}

/// The view of a sequence of strings.
pub open spec fn strs_view(v: Seq<String>) -> Seq<Seq<char>> {
    v.map_values(|s: String| s@)
}

/// The whole catalog document.
#[derive(Debug, Default, PartialEq)]
pub struct Root {
    pub products: Vec<Product>,
}

/// A product as last observed.
#[derive(Debug, Default, PartialEq)]
pub struct Product {
    pub id: u64,
    pub title: String,
    pub handle: String,
    pub body_html: String,
    pub published_at: String,
    pub created_at: String,
    pub updated_at: String,
    pub vendor: String,
    pub product_type: String,
    pub tags: Vec<String>,
    pub variants: Vec<Variant>,
    pub images: Vec<Image>,
    pub options: Vec<ProductOptions>,
}

/// One purchasable variant of a product.
#[derive(Debug, Default, PartialEq)]
pub struct Variant {
    pub id: i64,
    pub title: String,
    pub option1: Option<String>,
    pub option2: Option<String>,
    pub option3: Option<String>,
    pub sku: String,
    pub requires_shipping: bool,
    pub taxable: bool,
    pub featured_image: Option<Image>,
    pub available: bool,
    pub price: String,
    pub grams: i64,
    pub compare_at_price: Option<String>,
    pub position: i64,
    pub product_id: i64,
    pub created_at: String,
    pub updated_at: String,
}

/// A product image.
#[derive(Debug, Default, PartialEq)]
pub struct Image {
    pub id: i64,
    pub created_at: String,
    pub position: i64,
    pub updated_at: String,
    pub product_id: i64,
    pub variant_ids: Vec<i64>,
    pub src: String,
    pub width: i64,
    pub height: i64,
    pub alt: Option<String>,
}

/// A named option of a product (size, colour) with its values.
#[derive(Debug, Default, PartialEq)]
pub struct ProductOptions {
    pub name: String,
    pub position: i64,
    pub values: Vec<String>,
}

pub struct ImageView {
    pub id: i64,
    pub created_at: Seq<char>,
    pub position: i64,
    pub updated_at: Seq<char>,
    pub product_id: i64,
    pub variant_ids: Seq<i64>,
    pub src: Seq<char>,
    pub width: i64,
    pub height: i64,
    pub alt: Option<Seq<char>>,
}

pub struct VariantView {
    pub id: i64,
    pub title: Seq<char>,
    pub option1: Option<Seq<char>>,
    pub option2: Option<Seq<char>>,
    pub option3: Option<Seq<char>>,
    pub sku: Seq<char>,
    pub requires_shipping: bool,
    pub taxable: bool,
    pub featured_image: Option<ImageView>,
    pub available: bool,
    pub price: Seq<char>,
    pub grams: i64,
    pub compare_at_price: Option<Seq<char>>,
    pub position: i64,
    pub product_id: i64,
    pub created_at: Seq<char>,
    pub updated_at: Seq<char>,
}

pub struct ProductOptionsView {
    pub name: Seq<char>,
    pub position: i64,
    pub values: Seq<Seq<char>>,
}

pub struct ProductView {
    pub id: u64,
    pub title: Seq<char>,
    pub handle: Seq<char>,
    pub body_html: Seq<char>,
    pub published_at: Seq<char>,
    pub created_at: Seq<char>,
    pub updated_at: Seq<char>,
    pub vendor: Seq<char>,
    pub product_type: Seq<char>,
    pub tags: Seq<Seq<char>>,
    pub variants: Seq<VariantView>,
    pub images: Seq<ImageView>,
    pub options: Seq<ProductOptionsView>,
}

/// The view of an optional image.
pub open spec fn opt_image_view(o: Option<Image>) -> Option<ImageView> {
    match o {
        Some(i) => Some(i@),
        None => None,
    }
}

/// The views of a sequence of variants, in order.
pub open spec fn variants_view(v: Seq<Variant>) -> Seq<VariantView> {
    v.map_values(|x: Variant| x@)
}

/// The views of a sequence of products, in order.
pub open spec fn products_view(v: Seq<Product>) -> Seq<ProductView> {
    v.map_values(|x: Product| x@)
}

impl View for Image {
    type V = ImageView;

    open spec fn view(&self) -> ImageView {
        ImageView {
            id: self.id,
            created_at: self.created_at@,
            position: self.position,
            updated_at: self.updated_at@,
            product_id: self.product_id,
            variant_ids: self.variant_ids@,
            src: self.src@,
            width: self.width,
            height: self.height,
            alt: opt_str_view(self.alt),
        }
    }
}

impl View for Variant {
    type V = VariantView;

    open spec fn view(&self) -> VariantView {
        VariantView {
            id: self.id,
            title: self.title@,
            option1: opt_str_view(self.option1),
            option2: opt_str_view(self.option2),
            option3: opt_str_view(self.option3),
            sku: self.sku@,
            requires_shipping: self.requires_shipping,
            taxable: self.taxable,
            featured_image: opt_image_view(self.featured_image),
            available: self.available,
            price: self.price@,
            grams: self.grams,
            compare_at_price: opt_str_view(self.compare_at_price),
            position: self.position,
            product_id: self.product_id,
            created_at: self.created_at@,
            updated_at: self.updated_at@,
        }
    }
}

impl View for ProductOptions {
    type V = ProductOptionsView;

    open spec fn view(&self) -> ProductOptionsView {
        ProductOptionsView { name: self.name@, position: self.position, values: strs_view(self.values@) }
    }
}

impl View for Product {
    type V = ProductView;

    open spec fn view(&self) -> ProductView {
        ProductView {
            id: self.id,
            title: self.title@,
            handle: self.handle@,
            body_html: self.body_html@,
            published_at: self.published_at@,
            created_at: self.created_at@,
            updated_at: self.updated_at@,
            vendor: self.vendor@,
            product_type: self.product_type@,
            tags: strs_view(self.tags@),
            variants: variants_view(self.variants@),
            images: self.images@.map_values(|x: Image| x@),
            options: self.options@.map_values(|x: ProductOptions| x@),
        }
    }
}

fn clone_opt_string(o: &Option<String>) -> (r: Option<String>)
    ensures
        opt_str_view(r) == opt_str_view(*o),
{
    match o {
        Some(s) => Some(s.clone()),
        None => None,
    }
}

fn clone_strings(v: &Vec<String>) -> (r: Vec<String>)
    ensures
        strs_view(r@) == strs_view(v@),
{
    let r = v.clone();
    assert(r@ =~= v@);
    r
}

impl Clone for Image {
    fn clone(&self) -> (r: Self)
        ensures
            r@ == self@,
    {
        let ids = self.variant_ids.clone();
        assert(ids@ =~= self.variant_ids@);
        Image {
            id: self.id,
            created_at: self.created_at.clone(),
            position: self.position,
            updated_at: self.updated_at.clone(),
            product_id: self.product_id,
            variant_ids: ids,
            src: self.src.clone(),
            width: self.width,
            height: self.height,
            alt: clone_opt_string(&self.alt),
        }
    }
}

impl Clone for Variant {
    fn clone(&self) -> (r: Self)
        ensures
            r@ == self@,
    {
        let featured_image = match &self.featured_image {
            Some(i) => Some(i.clone()),
            None => None,
        };
        Variant {
            id: self.id,
            title: self.title.clone(),
            option1: clone_opt_string(&self.option1),
            option2: clone_opt_string(&self.option2),
            option3: clone_opt_string(&self.option3),
            sku: self.sku.clone(),
            requires_shipping: self.requires_shipping,
            taxable: self.taxable,
            featured_image,
            available: self.available,
            price: self.price.clone(),
            grams: self.grams,
            compare_at_price: clone_opt_string(&self.compare_at_price),
            position: self.position,
            product_id: self.product_id,
            created_at: self.created_at.clone(),
            updated_at: self.updated_at.clone(),
        }
    }
}

impl Clone for ProductOptions {
    fn clone(&self) -> (r: Self)
        ensures
            r@ == self@,
    {
        ProductOptions {
            name: self.name.clone(),
            position: self.position,
            values: clone_strings(&self.values),
        }
    }
}

impl Clone for Product {
    fn clone(&self) -> (r: Self)
        ensures
            r@ == self@,
    {
        let variants = self.variants.clone();
        assert(variants_view(variants@) =~= variants_view(self.variants@));
        let images = self.images.clone();
        assert(images@.map_values(|x: Image| x@) =~= self.images@.map_values(|x: Image| x@));
        let options = self.options.clone();
        assert(options@.map_values(|x: ProductOptions| x@) =~= self.options@.map_values(
            |x: ProductOptions| x@,
        ));
        Product {
            id: self.id,
            title: self.title.clone(),
            handle: self.handle.clone(),
            body_html: self.body_html.clone(),
            published_at: self.published_at.clone(),
            created_at: self.created_at.clone(),
            updated_at: self.updated_at.clone(),
            vendor: self.vendor.clone(),
            product_type: self.product_type.clone(),
            tags: clone_strings(&self.tags),
            variants,
            images,
            options,
        }
    }
}

} // verus!
